use planet_bot::command::{Command, RegistryError, TriggerRegistry, NEW_PLANET_TRIGGER};
use planet_bot::event::MessageEvent;
use planet_bot::ids::{ChannelId, UserId};
use planet_bot::text::{char_is_whitespace, text_is_blank};

fn event(content: &str) -> MessageEvent {
    MessageEvent::new(content.to_string(), ChannelId::new(7).unwrap(), UserId::new(3))
}

#[test]
fn trigger_is_new_planet() {
    assert_eq!(NEW_PLANET_TRIGGER, "!newplanet");
}

#[test]
fn exact_trigger_matches() {
    let registry = TriggerRegistry::standard();
    assert_eq!(registry.match_event(&event("!newplanet")), Some(Command::NewPlanet));
    assert_eq!(registry.match_content(&"!newplanet".to_string()), Some(Command::NewPlanet));
}

#[test]
fn other_text_does_not_match() {
    let registry = TriggerRegistry::standard();
    let others = [
        "hello",
        "newplanet",
        "!newplane",
        "!newplanets",
        "!newplanet ",
        " !newplanet",
        "!newplanet now",
        "!NewPlanet",
        "!NEWPLANET",
        "!",
        "!newplanet\n",
        "say !newplanet",
        "!new planet",
    ];
    for text in others {
        assert_eq!(registry.match_event(&event(text)), None, "{:?}", text);
    }
}

#[test]
fn empty_text_never_matches() {
    let registry = TriggerRegistry::standard();
    assert_eq!(registry.match_event(&event("")), None);
}

#[test]
fn blank_text_never_matches() {
    let mut registry = TriggerRegistry::standard();
    assert_eq!(registry.register("  ", Command::NewPlanet), Err(RegistryError::BlankTrigger));
    for text in [" ", "   ", "\t", "\n", " \t\r\n", "\u{a0}", "\u{3000}\u{2003}"] {
        assert_eq!(registry.match_event(&event(text)), None, "{:?}", text);
    }
}

#[test]
fn matching_twice_gives_the_same() {
    let registry = TriggerRegistry::standard();
    let hit = event("!newplanet");
    let first = registry.match_event(&hit);
    let second = registry.match_event(&hit);
    assert_eq!(first, Some(Command::NewPlanet));
    assert_eq!(first, second);
    let miss = event("!oldplanet");
    assert_eq!(registry.match_event(&miss), None);
    assert_eq!(registry.match_event(&miss), None);
}

#[test]
fn matching_ignores_channel_and_author() {
    let registry = TriggerRegistry::standard();
    let here = MessageEvent::new("!newplanet".to_string(), ChannelId::new(1).unwrap(), UserId::new(1));
    let there =
        MessageEvent::new("!newplanet".to_string(), ChannelId::new(u64::MAX).unwrap(), UserId::new(0));
    assert_eq!(registry.match_event(&here), registry.match_event(&there));
}

#[test]
fn empty_registry_matches_nothing() {
    let registry = TriggerRegistry::new();
    assert_eq!(registry.len(), 0);
    assert!(registry.is_empty());
    assert_eq!(registry.match_event(&event("!newplanet")), None);
    assert_eq!(registry.match_event(&event("")), None);
}

#[test]
fn standard_registry_has_one_trigger() {
    assert_eq!(TriggerRegistry::standard().len(), 1);
    assert!(!TriggerRegistry::standard().is_empty());
}

#[test]
fn registered_trigger_matches() {
    let mut registry = TriggerRegistry::new();
    assert_eq!(registry.register("!planet", Command::NewPlanet), Ok(()));
    assert_eq!(registry.len(), 1);
    assert_eq!(registry.match_event(&event("!planet")), Some(Command::NewPlanet));
    assert_eq!(registry.match_event(&event("!newplanet")), None);
    assert_eq!(registry.register("!newplanet", Command::NewPlanet), Ok(()));
    assert_eq!(registry.len(), 2);
    assert_eq!(registry.match_event(&event("!planet")), Some(Command::NewPlanet));
    assert_eq!(registry.match_event(&event("!newplanet")), Some(Command::NewPlanet));
    assert_eq!(registry.match_event(&event("!planet!newplanet")), None);
}

#[test]
fn trigger_may_be_registered_twice() {
    let mut registry = TriggerRegistry::standard();
    assert_eq!(registry.register("!newplanet", Command::NewPlanet), Ok(()));
    assert_eq!(registry.len(), 2);
    assert_eq!(registry.match_event(&event("!newplanet")), Some(Command::NewPlanet));
}

#[test]
fn trigger_with_inner_space_is_kept_whole() {
    let mut registry = TriggerRegistry::new();
    assert_eq!(registry.register(" go ", Command::NewPlanet), Ok(()));
    assert_eq!(registry.match_event(&event(" go ")), Some(Command::NewPlanet));
    assert_eq!(registry.match_event(&event("go")), None);
    assert_eq!(registry.match_event(&event(" go")), None);
}

#[test]
fn blank_trigger_is_refused() {
    let mut registry = TriggerRegistry::new();
    for trigger in ["", " ", "\t\n", "\u{3000}", " \u{2028}\u{85}"] {
        assert_eq!(
            registry.register(trigger, Command::NewPlanet),
            Err(RegistryError::BlankTrigger),
            "{:?}",
            trigger
        );
        assert_eq!(registry.len(), 0);
    }
    assert_eq!(registry.match_event(&event("")), None);
    assert_eq!(registry.match_event(&event(" ")), None);
}

#[test]
fn refused_trigger_leaves_registry_as_it_was() {
    let mut registry = TriggerRegistry::standard();
    assert_eq!(registry.register("", Command::NewPlanet), Err(RegistryError::BlankTrigger));
    assert_eq!(registry.len(), 1);
    assert_eq!(registry.match_event(&event("!newplanet")), Some(Command::NewPlanet));
}

#[test]
fn white_space_is_unicode_white_space() {
    let mut count = 0;
    for n in 0..=0x10FFFFu32 {
        if let Some(c) = char::from_u32(n) {
            assert_eq!(char_is_whitespace(c), c.is_whitespace(), "U+{:04X}", n);
            if char_is_whitespace(c) {
                count += 1;
            }
        }
    }
    assert_eq!(count, 25);
}

#[test]
fn white_space_examples() {
    for c in [' ', '\t', '\n', '\u{b}', '\u{c}', '\r', '\u{85}', '\u{a0}', '\u{1680}', '\u{2000}', '\u{200a}', '\u{2028}', '\u{2029}', '\u{202f}', '\u{205f}', '\u{3000}'] {
        assert!(char_is_whitespace(c), "{:?}", c);
    }
    for c in ['!', 'a', '0', '\u{8}', '\u{e}', '\u{1f}', '\u{84}', '\u{86}', '\u{200b}', '\u{1fff}', '\u{2027}', '\u{202a}', '\u{2060}', '\u{feff}', '\u{3001}'] {
        assert!(!char_is_whitespace(c), "{:?}", c);
    }
}

#[test]
fn blank_text_examples() {
    assert!(text_is_blank(""));
    assert!(text_is_blank(" "));
    assert!(text_is_blank(" \t\r\n\u{3000}"));
    assert!(!text_is_blank("!newplanet"));
    assert!(!text_is_blank(" a"));
    assert!(!text_is_blank("a "));
    assert!(!text_is_blank("   .   "));
    assert!(!text_is_blank("\u{200b}"));
}

#[test]
fn channel_id_refuses_placeholder() {
    assert_eq!(ChannelId::new(0), None);
    assert_eq!(ChannelId::new(1).map(|c| c.get()), Some(1));
    assert_eq!(ChannelId::new(u64::MAX).map(|c| c.get()), Some(u64::MAX));
    assert_eq!(ChannelId::new(42), ChannelId::new(42));
    assert_ne!(ChannelId::new(42), ChannelId::new(43));
}

#[test]
fn user_id_keeps_its_number() {
    assert_eq!(UserId::new(0).get(), 0);
    assert_eq!(UserId::new(99).get(), 99);
    assert_eq!(UserId::new(5), UserId { raw: 5 });
}

#[test]
fn event_keeps_its_parts() {
    let e = MessageEvent::new("hi there".to_string(), ChannelId::new(12).unwrap(), UserId::new(34));
    assert_eq!(e.content(), "hi there");
    assert_eq!(e.channel_id().get(), 12);
    assert_eq!(e.author_id().get(), 34);
}
