use leaderboard::error::LeaderboardError;
use leaderboard::error::SubmissionError;
use leaderboard::submission::create_filled_form;
use leaderboard::submission::extract_form_token;
use leaderboard::submission::form_pairs;
use leaderboard::submission::hpi_form_url;
use leaderboard::submission::plan_submission;
use leaderboard::submission::u64_to_string;
use leaderboard::submission::HPIFormData;

fn testy_form() -> HPIFormData {
    HPIFormData {
        firstname: "Testy".to_string(),
        lastname: "McTestface".to_string(),
        email: "testy@example.com".to_string(),
        occupation: "Schüler:in".to_string(),
        email_consent: "yes".to_string(),
        data_processing_consent: "Ja, ich stimme zu.".to_string(),
    }
}

fn page_with_token(token: &str) -> String {
    format!(
        "<html><body><form>\n<input type=\"hidden\" name=\"zz_id\" value=\"{}\">\n</form></body></html>",
        token
    )
}

#[test]
fn token_is_extracted_from_a_page() {
    let page = page_with_token("abc123");
    assert_eq!(extract_form_token(&page), Some("abc123".to_string()));
}

#[test]
fn token_must_be_five_to_ten_characters() {
    assert_eq!(extract_form_token(&page_with_token("abcd")), None);
    assert_eq!(
        extract_form_token(&page_with_token("abcde")),
        Some("abcde".to_string())
    );
    assert_eq!(
        extract_form_token(&page_with_token("abcdefghij")),
        Some("abcdefghij".to_string())
    );
    assert_eq!(extract_form_token(&page_with_token("abcdefghijk")), None);
}

#[test]
fn token_may_not_contain_a_line_break() {
    assert_eq!(extract_form_token(&page_with_token("ab\ncd")), None);
}

#[test]
fn the_leftmost_token_wins() {
    let page = format!("{}{}", page_with_token("first"), page_with_token("secondone"));
    assert_eq!(extract_form_token(&page), Some("first".to_string()));
}

#[test]
fn a_page_without_the_field_has_no_token() {
    assert_eq!(extract_form_token("<html><body>nothing here</body></html>"), None);
    assert_eq!(extract_form_token(""), None);
    assert_eq!(
        extract_form_token("<input type=\"hidden\" name=\"other\" value=\"abc123\">"),
        None
    );
}

#[test]
fn planning_fails_without_a_token_and_never_reaches_the_post() {
    let r = plan_submission(testy_form(), "<html>layout changed</html>");
    assert!(matches!(r, Err(SubmissionError::TokenExtractFailed)));
}

#[test]
fn planning_fills_the_form_with_the_scraped_token() {
    let page = page_with_token("tok42x");
    let filled = plan_submission(testy_form(), &page).unwrap();
    assert_eq!(filled.id, "tok42x".to_string());
    assert_eq!(filled.action, "insert".to_string());
    assert_eq!(filled.event_id, 4062);
    assert_eq!(filled.form_data.firstname, "Testy".to_string());
}

#[test]
fn token_travels_under_the_zz_id_field() {
    // the filled form carries the token under the field name the third
    // party's page uses
    let filled = create_filled_form(testy_form(), "tok42x".to_string());
    let pairs = form_pairs(&filled);
    assert!(pairs.contains(&("zz_id".to_string(), "tok42x".to_string())));
}

#[test]
fn payload_holds_every_field_in_posting_order() {
    let filled = create_filled_form(testy_form(), "tok42x".to_string());
    let pairs = form_pairs(&filled);
    let expected = vec![
        ("persons[0][first_name]".to_string(), "Testy".to_string()),
        ("persons[0][last_name]".to_string(), "McTestface".to_string()),
        (
            "contactdetails_5[0][identification]".to_string(),
            "testy@example.com".to_string(),
        ),
        (
            "registrationvarchars_103[0][registrationvarchar]".to_string(),
            "Schüler:in".to_string(),
        ),
        (
            "registrationvarchars_105[0][registrationvarchar]".to_string(),
            "yes".to_string(),
        ),
        (
            "registrationvarchars_106[0][registrationvarchar]".to_string(),
            "Ja, ich stimme zu.".to_string(),
        ),
        ("zz_id".to_string(), "tok42x".to_string()),
        ("zz_action".to_string(), "insert".to_string()),
        ("events_contacts[0][event_id]".to_string(), "4062".to_string()),
    ];
    assert_eq!(pairs, expected);
}

#[test]
fn extraction_and_filling_compose() {
    // token extraction followed by form filling, as the pipeline runs them
    let page = page_with_token("tok42x");
    let token = extract_form_token(&page);
    assert!(token.is_some());
    let filled = create_filled_form(testy_form(), token.unwrap());
    assert_eq!(filled.id, "tok42x".to_string());
    assert_eq!(form_pairs(&filled).len(), 9);
}

#[test]
fn numbers_format_in_decimal() {
    assert_eq!(u64_to_string(0), "0".to_string());
    assert_eq!(u64_to_string(4062), "4062".to_string());
    assert_eq!(u64_to_string(10), "10".to_string());
    assert_eq!(u64_to_string(18446744073709551615), "18446744073709551615".to_string());
}

#[test]
fn the_form_url_is_fixed() {
    assert_eq!(
        hpi_form_url(),
        "https://hpi.de/registrierung/2025/gewinnspiel-gamescom-2025/"
    );
}

#[test]
fn error_messages_name_the_failure() {
    assert_eq!(
        SubmissionError::TokenExtractFailed.message(),
        "Couldn't extract token from HPI Website. Did the layout change?".to_string()
    );
    assert_eq!(
        LeaderboardError::MissingAuth.message(),
        "You didn't provide any credentials!".to_string()
    );
    assert_eq!(
        LeaderboardError::IncompleteData("nickname".to_string()).message(),
        "You didn't provide all necessary data points! (nickname)".to_string()
    );
    assert_eq!(
        LeaderboardError::TransmitError(SubmissionError::SubmitFailed).message(),
        "Couldn't transmit data to the HPI server! Reason: Couldn't submit data to HPI Website. Are we blocked, was the format changed or did the user enter something malformed?".to_string()
    );
}
