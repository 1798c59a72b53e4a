//! The external submission pipeline: a one-time form token is scraped from
//! the third party's registration page, combined with the claimant's
//! identity fields into a fixed URL-encoded form payload, and posted back.
//! The scanning of the page and the assembly of the payload live here; the
//! two HTTP transfers are the caller's concern.

use vstd::prelude::*;

use crate::error::SubmissionError;
use crate::helper::chars_vec;

verus! {

/// The third-party registration page that serves both the form and its
/// hidden one-time token.
pub fn hpi_form_url() -> (r: &'static str)
    ensures
        r@ == "https://hpi.de/registrierung/2025/gewinnspiel-gamescom-2025/"@,
{
    "https://hpi.de/registrierung/2025/gewinnspiel-gamescom-2025/"
}

/// The caller-supplied identity fields of the third-party form.
#[derive(Debug)]
pub struct HPIFormData {
    /// The claimant's first name.
    pub firstname: String,
    /// The claimant's last name.
    pub lastname: String,
    /// The claimant's e-mail address.
    pub email: String,
    /// The occupation label, already mapped to the wording the form expects.
    pub occupation: String,
    /// "yes" or "no": whether the claimant consented to the newsletter.
    pub email_consent: String,
    /// The fixed data-processing consent sentence.
    pub data_processing_consent: String,
}

/// A form payload ready to post: the identity fields plus the scraped
/// one-time token, the fixed action marker, and the fixed event identifier.
#[derive(Debug)]
pub struct HPIFormDataFinalized {
    /// The identity fields.
    pub form_data: HPIFormData,
    /// The one-time token scraped from the page; used at most once.
    pub id: String,
    /// The fixed action marker, always `insert`.
    pub action: String,
    /// The fixed event identifier, always 4062.
    pub event_id: u64,
}

/// Combines the identity fields with a scraped token into a complete
/// payload, with the fixed action marker and event identifier.
pub fn create_filled_form(form_data: HPIFormData, id: String) -> (r: HPIFormDataFinalized)
    ensures
        r.form_data == form_data,
        r.id == id,
        r.action@ == "insert"@,
        r.event_id == 4062,
{
    HPIFormDataFinalized { form_data, id, action: "insert".to_owned(), event_id: 4062 }
}

/// The decimal digit character for a value below ten.
pub open spec fn dec_digit(d: nat) -> char {
    if d == 0 {
        '0'
    } else if d == 1 {
        '1'
    } else if d == 2 {
        '2'
    } else if d == 3 {
        '3'
    } else if d == 4 {
        '4'
    } else if d == 5 {
        '5'
    } else if d == 6 {
        '6'
    } else if d == 7 {
        '7'
    } else if d == 8 {
        '8'
    } else {
        '9'
    }
}

/// The decimal representation of a number, without leading zeros (except for
/// zero itself).
pub open spec fn dec_str(n: nat) -> Seq<char>
    decreases n,
{
    if n < 10 {
        seq![dec_digit(n)]
    } else {
        dec_str(n / 10).push(dec_digit(n % 10))
    }
}

fn append_digit(s: &mut String, d: u64)
    requires
        d < 10,
    ensures
        final(s)@ == old(s)@.push(dec_digit(d as nat)),
{
    if d == 0 {
        s.append("0");
        proof {
            reveal_strlit("0");
            assert(old(s)@ + "0"@ =~= old(s)@.push('0'));
        }
    } else if d == 1 {
        s.append("1");
        proof {
            reveal_strlit("1");
            assert(old(s)@ + "1"@ =~= old(s)@.push('1'));
        }
    } else if d == 2 {
        s.append("2");
        proof {
            reveal_strlit("2");
            assert(old(s)@ + "2"@ =~= old(s)@.push('2'));
        }
    } else if d == 3 {
        s.append("3");
        proof {
            reveal_strlit("3");
            assert(old(s)@ + "3"@ =~= old(s)@.push('3'));
        }
    } else if d == 4 {
        s.append("4");
        proof {
            reveal_strlit("4");
            assert(old(s)@ + "4"@ =~= old(s)@.push('4'));
        }
    } else if d == 5 {
        s.append("5");
        proof {
            reveal_strlit("5");
            assert(old(s)@ + "5"@ =~= old(s)@.push('5'));
        }
    } else if d == 6 {
        s.append("6");
        proof {
            reveal_strlit("6");
            assert(old(s)@ + "6"@ =~= old(s)@.push('6'));
        }
    } else if d == 7 {
        s.append("7");
        proof {
            reveal_strlit("7");
            assert(old(s)@ + "7"@ =~= old(s)@.push('7'));
        }
    } else if d == 8 {
        s.append("8");
        proof {
            reveal_strlit("8");
            assert(old(s)@ + "8"@ =~= old(s)@.push('8'));
        }
    } else {
        s.append("9");
        proof {
            reveal_strlit("9");
            assert(old(s)@ + "9"@ =~= old(s)@.push('9'));
        }
    }
}

fn append_u64(s: &mut String, n: u64)
    ensures
        final(s)@ == old(s)@ + dec_str(n as nat),
    decreases n,
{
    if n < 10 {
        append_digit(s, n);
        proof {
            assert(old(s)@.push(dec_digit(n as nat)) =~= old(s)@ + dec_str(n as nat));
        }
    } else {
        let ghost mid = old(s)@ + dec_str((n / 10) as nat);
        append_u64(s, n / 10);
        append_digit(s, n % 10);
        proof {
            assert((n / 10) as nat == n as nat / 10);
            assert((n % 10) as nat == n as nat % 10);
            assert(mid.push(dec_digit((n % 10) as nat)) =~= old(s)@ + dec_str(n as nat));
        }
    }
}

/// Formats a number in decimal.
pub fn u64_to_string(n: u64) -> (s: String)
    ensures
        s@ == dec_str(n as nat),
{
    let mut s = String::new();
    append_u64(&mut s, n);
    proof {
        assert(Seq::<char>::empty() + dec_str(n as nat) =~= dec_str(n as nat));
    }
    s
}

/// The fixed text that precedes the one-time token in the page.
pub open spec fn token_prefix() -> Seq<char> {
    "<input type=\"hidden\" name=\"zz_id\" value=\""@
}

/// The two characters that close the token's attribute.
pub open spec fn token_suffix() -> Seq<char> {
    "\">"@
}

/// Whether the hidden-input pattern matches at position `i` with a token of
/// `k` characters: the fixed prefix, then 5 to 10 characters none of which
/// is a line break, then `">`.
pub open spec fn match_at(s: Seq<char>, i: int, k: int) -> bool {
    let p = token_prefix().len() as int;
    &&& 0 <= i
    &&& 5 <= k <= 10
    &&& i + p + k + 2 <= s.len()
    &&& s.subrange(i, i + p) == token_prefix()
    &&& (forall|j: int| i + p <= j < i + p + k ==> s[j] != '\n')
    &&& s.subrange(i + p + k, i + p + k + 2) == token_suffix()
}

/// Whether the page contains the hidden-input pattern anywhere.
pub open spec fn has_token(s: Seq<char>) -> bool {
    exists|i: int, k: int| match_at(s, i, k)
}

/// Whether `pat` occurs in `v` starting at `i`.
fn slice_eq_at(v: &Vec<char>, i: usize, pat: &Vec<char>) -> (b: bool)
    requires
        i + pat@.len() <= v@.len(),
    ensures
        b == (v@.subrange(i as int, i + pat@.len()) == pat@),
{
    let m = pat.len();
    let nv = v.len();
    for j in 0..m
        invariant
            nv == v@.len(),
            i + m <= nv,
            m == pat@.len(),
            forall|t: int| 0 <= t < j ==> v@[i + t] == #[trigger] pat@[t],
    {
        if v[i + j] != pat[j] {
            proof {
                assert(v@.subrange(i as int, i + pat@.len())[j as int] == v@[i + j]);
            }
            return false;
        }
    }
    proof {
        assert(v@.subrange(i as int, i + pat@.len()) =~= pat@);
    }
    true
}

/// Whether none of the characters in `[from, to)` is a line break.
fn window_clear(v: &Vec<char>, from: usize, to: usize) -> (b: bool)
    requires
        from <= to <= v@.len(),
    ensures
        b == (forall|j: int| from <= j < to ==> v@[j] != '\n'),
{
    for j in from..to
        invariant
            to <= v@.len(),
            forall|t: int| from <= t < j ==> v@[t] != '\n',
    {
        if v[j] == '\n' {
            return false;
        }
    }
    true
}

/// Tries the pattern at one start position, longest token first; reports the
/// token length of the greedy match there, if any.
fn token_at(v: &Vec<char>, i: usize, pre: &Vec<char>) -> (r: Option<usize>)
    requires
        pre@ == token_prefix(),
    ensures
        r matches Some(k) ==> {
            &&& 5 <= k <= 10
            &&& match_at(v@, i as int, k as int)
            &&& (forall|k2: int| match_at(v@, i as int, k2) ==> k2 <= k as int)
        },
        r is None ==> forall|k2: int| !match_at(v@, i as int, k2),
{
    let n = v.len();
    let p = pre.len();
    if n < 7 || p > n - 7 || i > n - p - 7 {
        proof {
            assert forall|k2: int| !match_at(v@, i as int, k2) by {
                if match_at(v@, i as int, k2) {
                    assert(i + p + k2 + 2 <= n && 5 <= k2);
                }
            }
        }
        return None;
    }
    if !slice_eq_at(v, i, pre) {
        proof {
            assert forall|k2: int| !match_at(v@, i as int, k2) by {
                assert(v@.subrange(i as int, i + p) != token_prefix());
            }
        }
        return None;
    }
    proof {
        reveal_strlit("\">");
        assert(token_suffix().len() == 2 && token_suffix()[0] == '"' && token_suffix()[1] == '>');
    }
    let mut r_inner: Option<usize> = None;
    let mut k: usize = 10;
    loop
        invariant
            5 <= k <= 10,
            n == v@.len(),
            p == pre@.len(),
            pre@ == token_prefix(),
            n >= 7 && p <= n - 7 && i <= n - p - 7,
            v@.subrange(i as int, i + p) == token_prefix(),
            token_suffix().len() == 2 && token_suffix()[0] == '"' && token_suffix()[1] == '>',
            forall|k2: int| k < k2 ==> !match_at(v@, i as int, k2),
        ensures
            match r_inner {
                Some(kk) => 5 <= kk <= 10 && match_at(v@, i as int, kk as int) && (forall|k2: int|
                    match_at(v@, i as int, k2) ==> k2 <= kk as int),
                None => forall|k2: int| !match_at(v@, i as int, k2),
            },
        decreases k,
    {
        let avail = n - p - i;
        let fits = k + 2 <= avail;
        let mut good = false;
        if fits {
            if window_clear(v, i + p, i + p + k) {
                if v[i + p + k] == '"' && v[i + p + k + 1] == '>' {
                    good = true;
                    proof {
                        assert(v@.subrange(i + p + k as int, i + p + k + 2) =~= token_suffix());
                        assert(match_at(v@, i as int, k as int));
                    }
                }
            }
        }
        if good {
            r_inner = Some(k);
            break ;
        }
        proof {
            assert(!match_at(v@, i as int, k as int)) by {
                if match_at(v@, i as int, k as int) {
                    assert(v@.subrange(i + p + k as int, i + p + k + 2) == token_suffix());
                    assert(v@[i + p + k as int] == token_suffix()[0]);
                    assert(v@[i + p + k + 1] == token_suffix()[1]);
                }
            }
        }
        if k == 5 {
            proof {
                assert forall|k2: int| !match_at(v@, i as int, k2) by {
                    if match_at(v@, i as int, k2) {
                        assert(5 <= k2 <= 10);
                    }
                }
            }
            r_inner = None;
            break ;
        }
        k = k - 1;
    }
    r_inner
}

/// Scans a fetched page for the hidden one-time token. The match is the
/// leftmost occurrence of the pattern, and at that position the longest
/// token (10 characters down to 5) that is still closed by `">`; the token
/// is returned exactly as it stands in the page.
pub fn extract_form_token(page: &str) -> (r: Option<String>)
    ensures
        r is Some <==> has_token(page@),
        r matches Some(t) ==> exists|i: int, k: int|
            {
                &&& #[trigger] match_at(page@, i, k)
                &&& t@ == page@.subrange(
                    i + token_prefix().len(),
                    i + token_prefix().len() + k,
                )
                &&& (forall|i2: int, k2: int| match_at(page@, i2, k2) ==> i <= i2)
                &&& (forall|k2: int| match_at(page@, i, k2) ==> k2 <= k)
            },
{
    let v = chars_vec(page);
    let pre = chars_vec("<input type=\"hidden\" name=\"zz_id\" value=\"");
    proof {
        assert(pre@ == token_prefix());
    }
    let n = v.len();
    let p = pre.len();
    if n < 7 || p > n - 7 {
        proof {
            assert forall|i2: int, k2: int| !match_at(page@, i2, k2) by {
                if match_at(page@, i2, k2) {
                    assert(i2 + p + k2 + 2 <= n && 5 <= k2 && 0 <= i2);
                }
            }
        }
        return None;
    }
    let limit = n - p - 7;
    let mut i: usize = 0;
    let mut res_token: Option<(usize, usize)> = None;
    loop
        invariant
            i <= limit + 1,
            n == v@.len(),
            p == pre@.len(),
            pre@ == token_prefix(),
            v@ == page@,
            n >= 7 && p <= n - 7 && limit == n - p - 7,
            forall|i2: int, k2: int| i2 < i ==> !match_at(page@, i2, k2),
        ensures
            res_token matches Some((s, kk)) ==> {
                &&& match_at(page@, s as int, kk as int)
                &&& (forall|i2: int, k2: int| match_at(page@, i2, k2) ==> s as int <= i2)
                &&& (forall|k2: int| match_at(page@, s as int, k2) ==> k2 <= kk as int)
            },
            res_token is None ==> !has_token(page@),
        decreases limit + 1 - i,
    {
        if i > limit {
            proof {
                assert forall|i2: int, k2: int| !match_at(page@, i2, k2) by {
                    if match_at(page@, i2, k2) {
                        assert(i2 + p + k2 + 2 <= n && 5 <= k2);
                        assert(i2 <= limit);
                    }
                }
            }
            res_token = None;
            break ;
        }
        match token_at(&v, i, &pre) {
            Some(k) => {
                res_token = Some((i, k));
                break ;
            },
            None => {
                i = i + 1;
            },
        }
    }
    match res_token {
        Some((s, k)) => {
            let start = s + p;
            let token = page.substring_char(start, start + k);
            proof {
                assert(match_at(page@, s as int, k as int) && token@ == page@.subrange(
                    s + token_prefix().len(),
                    s + token_prefix().len() + k,
                ) && (forall|i2: int, k2: int| match_at(page@, i2, k2) ==> s as int <= i2) && (
                forall|k2: int| match_at(page@, s as int, k2) ==> k2 <= k as int));
            }
            Some(token.to_owned())
        },
        None => None,
    }
}

/// The first pipeline decision: given the fetched registration page, either
/// the filled form to post, or the extraction failure that the pipeline
/// reports instead of attempting the post. The error is exactly
/// `TokenExtractFailed`, and it is returned if and only if the page holds no
/// token.
pub fn plan_submission(form_data: HPIFormData, page: &str) -> (r: Result<
    HPIFormDataFinalized,
    SubmissionError,
>)
    ensures
        r is Err <==> !has_token(page@),
        r matches Err(e) ==> e == SubmissionError::TokenExtractFailed,
        r matches Ok(f) ==> {
            &&& f.form_data == form_data
            &&& f.action@ == "insert"@
            &&& f.event_id == 4062
            &&& exists|i: int, k: int|
                {
                    &&& #[trigger] match_at(page@, i, k)
                    &&& f.id@ == page@.subrange(
                        i + token_prefix().len(),
                        i + token_prefix().len() + k,
                    )
                    &&& (forall|i2: int, k2: int| match_at(page@, i2, k2) ==> i <= i2)
                    &&& (forall|k2: int| match_at(page@, i, k2) ==> k2 <= k)
                }
        },
{
    match extract_form_token(page) {
        Some(token) => Ok(create_filled_form(form_data, token)),
        None => Err(SubmissionError::TokenExtractFailed),
    }
}

/// The complete URL-encoded form payload, as key/value pairs in posting
/// order: the six identity fields under the third party's field names, the
/// one-time token, the action marker, and the event identifier.
pub fn form_pairs(form: &HPIFormDataFinalized) -> (r: Vec<(String, String)>)
    ensures
        r@.len() == 9,
        r@[0].0@ == "persons[0][first_name]"@ && r@[0].1@ == form.form_data.firstname@,
        r@[1].0@ == "persons[0][last_name]"@ && r@[1].1@ == form.form_data.lastname@,
        r@[2].0@ == "contactdetails_5[0][identification]"@ && r@[2].1@ == form.form_data.email@,
        r@[3].0@ == "registrationvarchars_103[0][registrationvarchar]"@ && r@[3].1@
            == form.form_data.occupation@,
        r@[4].0@ == "registrationvarchars_105[0][registrationvarchar]"@ && r@[4].1@
            == form.form_data.email_consent@,
        r@[5].0@ == "registrationvarchars_106[0][registrationvarchar]"@ && r@[5].1@
            == form.form_data.data_processing_consent@,
        r@[6].0@ == "zz_id"@ && r@[6].1@ == form.id@,
        r@[7].0@ == "zz_action"@ && r@[7].1@ == form.action@,
        r@[8].0@ == "events_contacts[0][event_id]"@ && r@[8].1@ == dec_str(form.event_id as nat),
{
    let mut r: Vec<(String, String)> = Vec::new();
    r.push(("persons[0][first_name]".to_owned(), form.form_data.firstname.clone()));
    r.push(("persons[0][last_name]".to_owned(), form.form_data.lastname.clone()));
    r.push(("contactdetails_5[0][identification]".to_owned(), form.form_data.email.clone()));
    r.push(
        (
            "registrationvarchars_103[0][registrationvarchar]".to_owned(),
            form.form_data.occupation.clone(),
        ),
    );
    r.push(
        (
            "registrationvarchars_105[0][registrationvarchar]".to_owned(),
            form.form_data.email_consent.clone(),
        ),
    );
    r.push(
        (
            "registrationvarchars_106[0][registrationvarchar]".to_owned(),
            form.form_data.data_processing_consent.clone(),
        ),
    );
    r.push(("zz_id".to_owned(), form.id.clone()));
    r.push(("zz_action".to_owned(), form.action.clone()));
    r.push(("events_contacts[0][event_id]".to_owned(), u64_to_string(form.event_id)));
    r
}

} // verus!
