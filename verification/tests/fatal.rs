use echo_bot::fatal::{after_call, Call, Fatal};

fn failed() -> Result<u8, String> {
    Err("timed out".to_string())
}

#[test]
fn a_call_that_succeeded_lets_the_process_carry_on() {
    assert_eq!(after_call(Call::Connect, Ok::<u8, String>(1)), Ok(1));
    assert_eq!(after_call(Call::Register, Ok::<&str, String>("taken")), Ok("taken"));
    assert_eq!(after_call(Call::Respond, Ok::<(), String>(())), Ok(()));
}

#[test]
fn a_failed_connection_is_fatal() {
    assert_eq!(after_call(Call::Connect, failed()), Err(Fatal::ConnectionFailed));
}

#[test]
fn a_failed_registration_is_fatal() {
    assert_eq!(after_call(Call::Register, failed()), Err(Fatal::RegistrationFailed));
}

#[test]
fn a_failed_response_is_fatal() {
    assert_eq!(after_call(Call::Respond, failed()), Err(Fatal::ResponseFailed));
}

#[test]
fn the_reason_of_a_failure_does_not_matter() {
    assert_eq!(after_call(Call::Respond, Err::<(), u32>(404)), Err(Fatal::ResponseFailed));
    assert_eq!(after_call(Call::Respond, Err::<(), ()>(())), Err(Fatal::ResponseFailed));
}

#[test]
fn every_condition_has_its_diagnostic() {
    assert_eq!(Fatal::MissingToken.message(), "Need BOT_TOKEN");
    assert_eq!(Fatal::MissingGuildId.message(), "Expected GUILD_ID in environment");
    assert_eq!(Fatal::InvalidGuildId.message(), "GUILD_ID must be an integer");
    assert_eq!(Fatal::MissingContent.message(), "should have content value");
    assert_eq!(Fatal::ConnectionFailed.message(), "Client error");
    assert_eq!(Fatal::RegistrationFailed.message(), "error setting up commands");
    assert_eq!(Fatal::ResponseFailed.message(), "interaction response failed");
}

#[test]
fn no_two_conditions_share_a_diagnostic() {
    let all = [
        Fatal::MissingToken,
        Fatal::MissingGuildId,
        Fatal::InvalidGuildId,
        Fatal::MissingContent,
        Fatal::ConnectionFailed,
        Fatal::RegistrationFailed,
        Fatal::ResponseFailed,
    ];
    for (i, a) in all.iter().enumerate() {
        for b in all.iter().skip(i + 1) {
            assert_ne!(a.message(), b.message());
        }
    }
}
