use expert_mouse_modifier::event::{RawEvent, CARRIER_CODE, EV_KEY, EV_REL, EV_SYN, NOOP_CODE};
use expert_mouse_modifier::eventprocessor::{
    ButtonNotContained, CmdMap, LoadError, MappingDocument, TranslationOutcome,
};

fn test_document() -> MappingDocument {
    MappingDocument {
        name_filter: String::from("kensington"),
        base_code: 0,
        button_map: vec![(274, 275)],
    }
}

fn document_with(base_code: i32, pairs: Vec<(u16, u16)>) -> MappingDocument {
    MappingDocument { name_filter: String::from("trackball"), base_code, button_map: pairs }
}

#[test]
fn load_test_file() {
    let map = CmdMap::new(Ok(test_document()));
    assert!(map.len() > 0);
    assert!(map.mapped_code(274) == Some(275));
}

#[test]
fn translate_test_command() {
    let map = CmdMap::new(Ok(test_document()));

    let test_cmd = RawEvent::new(EV_KEY, 274, 1);

    assert!(map.translate_command(test_cmd).unwrap().code() == 275);
    assert!(map.translate_command(test_cmd).unwrap().value() == 1);
    assert!(map.translate_command(test_cmd).unwrap().event_type() == EV_KEY);
}

#[test]
fn state_event_is_remapped() {
    let map = CmdMap::new(Ok(test_document()));
    let out = map.translate(RawEvent::new(EV_KEY, 274, 1));
    assert_eq!(out, TranslationOutcome::Remapped(RawEvent::new(EV_KEY, 275, 1)));
    let release = map.translate(RawEvent::new(EV_KEY, 274, 0));
    assert_eq!(release, TranslationOutcome::Remapped(RawEvent::new(EV_KEY, 275, 0)));
}

#[test]
fn carrier_event_is_remapped_with_offset() {
    let map = CmdMap::new(Ok(test_document()));
    let out = map.translate(RawEvent::new(EV_KEY, CARRIER_CODE, 274));
    assert_eq!(out, TranslationOutcome::Remapped(RawEvent::new(EV_KEY, CARRIER_CODE, 275)));

    let base = 589_550;
    let offset = CmdMap::new(Ok(document_with(base, vec![(274, 275)])));
    let out = offset.translate(RawEvent::new(4, CARRIER_CODE, base + 274));
    assert_eq!(out, TranslationOutcome::Remapped(RawEvent::new(4, CARRIER_CODE, base + 275)));
}

#[test]
fn carrier_event_out_of_range_is_unmapped() {
    let map = CmdMap::new(Ok(document_with(100, vec![(274, 275)])));
    // 50 - 100 is negative: no button code, truncated in the report.
    let out = map.translate(RawEvent::new(EV_KEY, CARRIER_CODE, 50));
    assert_eq!(out, TranslationOutcome::Unmapped(65486));
    let missing = map.translate(RawEvent::new(EV_KEY, CARRIER_CODE, 100 + 300));
    assert_eq!(missing, TranslationOutcome::Unmapped(300));
}

#[test]
fn carrier_result_overflowing_is_unmapped() {
    let map = CmdMap::new(Ok(document_with(i32::MAX - 10, vec![(1, 20)])));
    let out = map.translate(RawEvent::new(EV_KEY, CARRIER_CODE, i32::MAX - 9));
    assert_eq!(out, TranslationOutcome::Unmapped(1));
}

#[test]
fn unmapped_state_event() {
    let map = CmdMap::new(Ok(test_document()));
    let ev = RawEvent::new(EV_KEY, 272, 1);
    assert_eq!(map.translate(ev), TranslationOutcome::Unmapped(272));
    assert_eq!(map.translate_command(ev), Err(ButtonNotContained { code: 272 }));
}

#[test]
fn motion_and_sync_pass_through() {
    let map = CmdMap::new(Ok(document_with(0, vec![(8, 9), (274, 275)])));
    let motion = RawEvent::new(EV_REL, 8, -1);
    assert_eq!(map.translate(motion), TranslationOutcome::Passthrough(motion));
    let sync = RawEvent::new(EV_SYN, 274, 0);
    assert_eq!(map.translate(sync), TranslationOutcome::Passthrough(sync));
}

#[test]
fn terminator_passes_through() {
    let map = CmdMap::new(Ok(test_document()));
    let ev = RawEvent::new(EV_KEY, NOOP_CODE, 0);
    assert_eq!(map.translate(ev), TranslationOutcome::Passthrough(ev));
    assert_eq!(map.translate_command(ev), Ok(ev));
}

#[test]
fn failed_load_gives_empty_mapping() {
    for err in [LoadError::Unreadable, LoadError::Malformed] {
        let map = CmdMap::new(Err(err));
        assert_eq!(map.len(), 0);
        assert_eq!(map.base_code(), 0);
        assert_eq!(map.get_name_filter(), "");
        let ev = RawEvent::new(EV_KEY, 274, 1);
        assert_eq!(map.translate(ev), TranslationOutcome::Unmapped(274));
    }
}

#[test]
fn reserved_code_in_document_is_rejected() {
    let doc = document_with(0, vec![(274, 275), (CARRIER_CODE, 276)]);
    assert!(matches!(CmdMap::from_document(doc), Err(LoadError::ReservedCode)));
    let doc = document_with(0, vec![(274, NOOP_CODE)]);
    let map = CmdMap::new(Ok(doc));
    assert_eq!(map.len(), 0);
}

#[test]
fn last_pair_for_a_code_wins() {
    let map = CmdMap::new(Ok(document_with(7, vec![(274, 275), (273, 272), (274, 276)])));
    assert_eq!(map.len(), 2);
    assert_eq!(map.mapped_code(274), Some(276));
    assert_eq!(map.mapped_code(273), Some(272));
    assert_eq!(map.mapped_code(275), None);
    assert_eq!(map.base_code(), 7);
    assert_eq!(map.get_name_filter(), "trackball");
}

#[test]
fn default_mapping_is_empty() {
    let map = CmdMap::default();
    assert_eq!(map.len(), 0);
    assert_eq!(map.get_name_filter(), "");
}

#[test]
fn protocol_constants_match_evdev() {
    assert_eq!(NOOP_CODE, evdev::Key::KEY_RESERVED.code());
    assert_eq!(CARRIER_CODE, evdev::Key::KEY_3.code());
    assert_eq!(EV_KEY, evdev::EventType::KEY.0);
    assert_eq!(EV_REL, evdev::EventType::RELATIVE.0);
    assert_eq!(EV_SYN, evdev::EventType::SYNCHRONIZATION.0);
    assert_eq!(
        expert_mouse_modifier::event::EXTRA_BUTTON,
        evdev::Key::BTN_EXTRA.code()
    );
}
