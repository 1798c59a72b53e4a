//! Small self-contained primitives: a constant-time byte comparison for the
//! bearer token, an HTML-escaping sanitizer for display names, and a
//! trailing-whitespace trimmer.

use vstd::prelude::*;

verus! {

/// Compares two byte strings without short-circuiting on the first
/// difference: when the lengths match, every byte is visited and the verdicts
/// are folded with a non-lazy `&`, so the running time does not reveal where
/// the inputs diverge.
pub fn slow_equals(a: &[u8], b: &[u8]) -> (r: bool)
    ensures
        r == (a@ == b@),
{
    if a.len() != b.len() {
        proof {
            assert(a@.len() != b@.len());
        }
        return false;
    }
    let n = a.len();
    let mut acc: u8 = 0;
    for i in 0..n
        invariant
            n == a@.len(),
            n == b@.len(),
            (acc == 0) == (forall|j: int| 0 <= j < i ==> a@[j] == b@[j]),
    {
        let x = a[i];
        let y = b[i];
        proof {
            assert(((acc | (x ^ y)) == 0) == ((acc == 0) && (x == y))) by (bit_vector);
        }
        acc = acc | (x ^ y);
    }
    if acc == 0 {
        proof {
            assert(a@ =~= b@);
        }
        true
    } else {
        proof {
            assert(a@ != b@);
        }
        false
    }
}

/// What one character of a display name becomes after HTML escaping: each of
/// the five reserved characters turns into its entity, everything else is
/// kept. None of the entities contains a reserved character other than the
/// leading `&`, so escaping each character independently is safe.
pub open spec fn escape_char(c: char) -> Seq<char> {
    if c == '&' {
        "&amp;"@
    } else if c == '<' {
        "&lt;"@
    } else if c == '>' {
        "&gt;"@
    } else if c == '"' {
        "&quot;"@
    } else if c == '\'' {
        "&#39;"@
    } else {
        seq![c]
    }
}

/// A sanitized display name: every character escaped independently.
pub open spec fn sanitize_spec(s: Seq<char>) -> Seq<char>
    decreases s.len(),
{
    if s.len() == 0 {
        Seq::empty()
    } else {
        sanitize_spec(s.drop_last()) + escape_char(s.last())
    }
}

/// HTML-escapes the five reserved characters `& < > " '` of a display name,
/// so that the raw input can never reach rendered markup verbatim.
pub fn sanitize_name(name: String) -> (r: String)
    ensures
        r@ == sanitize_spec(name@),
{
    let s: &str = name.as_str();
    let n: usize = s.unicode_len();
    let mut out = String::new();

    for i in 0..n
        invariant
            n == s@.len(),
            s@ == name@,
            out@ == sanitize_spec(s@.take(i as int)),
    {
        let c = s.get_char(i);
        proof {
            assert(s@.take(i + 1).drop_last() =~= s@.take(i as int));
            assert(s@.take(i + 1).last() == s@[i as int]);
        }
        if c == '&' {
            out.append("&amp;");
        } else if c == '<' {
            out.append("&lt;");
        } else if c == '>' {
            out.append("&gt;");
        } else if c == '"' {
            out.append("&quot;");
        } else if c == '\'' {
            out.append("&#39;");
        } else {
            let piece = s.substring_char(i, i + 1);
            proof {
                assert(piece@ =~= seq![s@[i as int]]);
            }
            out.append(piece);
        }
    }
    proof {
        assert(s@.take(n as int) =~= s@);
    }
    out
}

/// No character of a sanitized name is one of the four markup-forming
/// characters `< > " '`; in particular a name such as a script tag can never
/// survive sanitization verbatim.
pub proof fn lemma_sanitized_has_no_markup(s: Seq<char>)
    ensures
        forall|i: int|
            0 <= i < sanitize_spec(s).len() ==> #[trigger] sanitize_spec(s)[i] != '<'
                && sanitize_spec(s)[i] != '>' && sanitize_spec(s)[i] != '"' && sanitize_spec(s)[i]
                != '\'',
    decreases s.len(),
{
    if s.len() > 0 {
        lemma_sanitized_has_no_markup(s.drop_last());
        let pre = sanitize_spec(s.drop_last());
        let esc = escape_char(s.last());
        assert(sanitize_spec(s) == pre + esc);
        assert forall|i: int| 0 <= i < esc.len() implies #[trigger] esc[i] != '<' && esc[i] != '>'
            && esc[i] != '"' && esc[i] != '\'' by {
            reveal_strlit("&amp;");
            reveal_strlit("&lt;");
            reveal_strlit("&gt;");
            reveal_strlit("&quot;");
            reveal_strlit("&#39;");
        }
        assert forall|i: int| 0 <= i < sanitize_spec(s).len() implies #[trigger] sanitize_spec(s)[i]
            != '<' && sanitize_spec(s)[i] != '>' && sanitize_spec(s)[i] != '"' && sanitize_spec(
            s,
        )[i] != '\'' by {
            if i < pre.len() {
                assert(sanitize_spec(s)[i] == pre[i]);
            } else {
                assert(sanitize_spec(s)[i] == esc[i - pre.len()]);
            }
        }
    }
}

/// The characters of a string slice, collected into a vector for random
/// access.
pub fn chars_vec(s: &str) -> (v: Vec<char>)
    ensures
        v@ == s@,
{
    let mut v: Vec<char> = Vec::new();
    for c in it: s.chars()
        invariant
            it.seq() == s@,
            v@ == it.seq().take(it.index()),
    {
        v.push(c);
    }
    proof {
        assert(s@.take(s@.len() as int) =~= s@);
    }
    v
}

/// The White_Space characters, as the Unicode property lists them.
pub open spec fn is_unicode_space(c: char) -> bool {
    let u = c as u32;
    (0x09 <= u && u <= 0x0D) || u == 0x20 || u == 0x85 || u == 0xA0 || u == 0x1680 || (0x2000 <= u
        && u <= 0x200A) || u == 0x2028 || u == 0x2029 || u == 0x202F || u == 0x205F || u == 0x3000
}

/// A string with its trailing whitespace removed.
pub open spec fn trim_end_spec(s: Seq<char>) -> Seq<char>
    decreases s.len(),
{
    if s.len() > 0 && is_unicode_space(s.last()) {
        trim_end_spec(s.drop_last())
    } else {
        s
    }
}

fn is_space_char(c: char) -> (r: bool)
    ensures
        r == is_unicode_space(c),
{
    let u = c as u32;
    (0x09 <= u && u <= 0x0D) || u == 0x20 || u == 0x85 || u == 0xA0 || u == 0x1680 || (0x2000 <= u
        && u <= 0x200A) || u == 0x2028 || u == 0x2029 || u == 0x202F || u == 0x205F || u == 0x3000
}

/// Removes trailing whitespace from a string slice.
pub fn trim_end(s: &str) -> (r: &str)
    ensures
        r@ == trim_end_spec(s@),
{
    let n: usize = s.unicode_len();
    let mut j: usize = n;
    proof {
        assert(s@.take(n as int) =~= s@);
    }
    loop
        invariant
            j <= n,
            n == s@.len(),
            trim_end_spec(s@) == trim_end_spec(s@.take(j as int)),
        ensures
            j <= n,
            trim_end_spec(s@) == s@.subrange(0, j as int),
        decreases j,
    {
        if j == 0 {
            proof {
                assert(s@.take(0) =~= s@.subrange(0, 0));
            }
            break ;
        }
        let c = s.get_char(j - 1);
        if is_space_char(c) {
            proof {
                assert(s@.take(j as int).last() == s@[j - 1]);
                assert(s@.take(j as int).drop_last() =~= s@.take(j - 1));
            }
            j = j - 1;
        } else {
            proof {
                assert(s@.take(j as int).last() == s@[j - 1]);
                assert(s@.take(j as int) =~= s@.subrange(0, j as int));
            }
            break ;
        }
    }
    s.substring_char(0, j)
}

} // verus!
