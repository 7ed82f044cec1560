use planet_bot::command::Command;
use planet_bot::error::{DispatchError, DELIVERY_FAILURE_REPORT, INVALID_PAYLOAD_REPORT};
use planet_bot::ids::ChannelId;
use planet_bot::response::{build, ANNOUNCEMENT_PREFIX, PLANET_URL_BASE};

fn channel(raw: u64) -> ChannelId {
    ChannelId::new(raw).unwrap()
}

#[test]
fn reply_names_the_planet() {
    let payload = build(Command::NewPlanet, channel(9), Some("42")).unwrap();
    assert_eq!(
        payload.content(),
        "A new planet has been added: https://play.skinetics.tech/tests/planets/42"
    );
    assert_eq!(payload.channel_id(), channel(9));
}

#[test]
fn reply_goes_to_the_source_channel() {
    for raw in [1u64, 2, 1234567890123456789, u64::MAX] {
        let payload = build(Command::NewPlanet, channel(raw), Some("x")).unwrap();
        assert_eq!(payload.channel_id().get(), raw);
    }
}

#[test]
fn reply_keeps_the_identifier_as_it_is() {
    for id in ["a", "earth-2", "  ", "42/moons", "Ünïcödé", "0"] {
        let payload = build(Command::NewPlanet, channel(1), Some(id)).unwrap();
        let expected = format!(
            "A new planet has been added: https://play.skinetics.tech/tests/planets/{}",
            id
        );
        assert_eq!(payload.content(), &expected);
    }
}

#[test]
fn reply_is_prefix_base_and_identifier() {
    assert_eq!(ANNOUNCEMENT_PREFIX, "A new planet has been added: ");
    assert_eq!(PLANET_URL_BASE, "https://play.skinetics.tech/tests/planets/");
    let payload = build(Command::NewPlanet, channel(1), Some("7")).unwrap();
    assert_eq!(payload.content(), &format!("{}{}{}", ANNOUNCEMENT_PREFIX, PLANET_URL_BASE, "7"));
}

#[test]
fn empty_identifier_is_invalid() {
    assert_eq!(build(Command::NewPlanet, channel(9), Some("")), Err(DispatchError::InvalidPayload));
}

#[test]
fn unset_identifier_is_invalid() {
    assert_eq!(build(Command::NewPlanet, channel(9), None), Err(DispatchError::InvalidPayload));
}

#[test]
fn payload_comes_apart() {
    let payload = build(Command::NewPlanet, channel(77), Some("42")).unwrap();
    let (to, text) = payload.into_parts();
    assert_eq!(to.get(), 77);
    assert_eq!(text, "A new planet has been added: https://play.skinetics.tech/tests/planets/42");
}

#[test]
fn failure_report_carries_the_detail() {
    assert_eq!(DELIVERY_FAILURE_REPORT, "Error sending message: ");
    let error = DispatchError::DeliveryFailure("Http(403 Forbidden)".to_string());
    assert_eq!(error.report(), "Error sending message: Http(403 Forbidden)");
    assert_eq!(DispatchError::DeliveryFailure(String::new()).report(), "Error sending message: ");
}

#[test]
fn invalid_payload_report() {
    assert_eq!(DispatchError::InvalidPayload.report(), INVALID_PAYLOAD_REPORT);
    assert_eq!(
        DispatchError::InvalidPayload.report(),
        "Invalid payload: the planet identifier is empty"
    );
}
