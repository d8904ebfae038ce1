use ticket_store::description::TicketDescription;
use ticket_store::title::TicketTitle;

#[test]
fn test_try_from_string() {
    let title = TicketTitle::try_from("A title".to_string()).unwrap();
    assert_eq!(title.as_str(), "A title");
}

#[test]
fn test_try_from_empty_string() {
    let err = TicketTitle::try_from("".to_string()).unwrap_err();
    assert_eq!(err.message(), "The title cannot be empty");
}

#[test]
fn test_try_from_long_string() {
    let title =
        "A title that's definitely longer than what should be allowed in a development ticket"
            .to_string();
    let err = TicketTitle::try_from(title).unwrap_err();
    assert_eq!(err.message(), "The title cannot be longer than 50 bytes");
}

#[test]
fn test_try_from_str() {
    let title = TicketTitle::try_from("A title").unwrap();
    assert_eq!(title.as_str(), "A title");
}

#[test]
fn title_at_the_byte_limit() {
    let exactly_fifty = "x".repeat(50);
    let title = TicketTitle::try_from(exactly_fifty.clone()).unwrap();
    assert_eq!(title.as_str(), exactly_fifty);
    let err = TicketTitle::try_from("x".repeat(51)).unwrap_err();
    assert_eq!(err.message(), "The title cannot be longer than 50 bytes");
}

#[test]
fn description_try_from_string() {
    let description = TicketDescription::try_from("A description".to_string()).unwrap();
    assert_eq!(description.as_str(), "A description");
}

#[test]
fn description_try_from_empty() {
    let err = TicketDescription::try_from("".to_string()).unwrap_err();
    assert_eq!(err.message(), "The description cannot be empty");
}

#[test]
fn description_try_from_long() {
    let err = TicketDescription::try_from("x".repeat(501)).unwrap_err();
    assert_eq!(err.message(), "The description cannot be longer than 500 bytes");
    assert!(TicketDescription::try_from("x".repeat(500)).is_ok());
}
