use rosu_mods::generated_mods::DoubleTimeOsu;
use rosu_mods::{GameMod, GameModIntermode, GameMods, GameModsLegacy};
use rosu_pp_py::{
    acronym_text, resolve, ForeignValue, ListElement, Mismatch, PyGameMode, PyGameMods, RawField, RawObject,
    Resolution, ResolveError, SettingEntry, SettingKey, SettingValue, Shape,
};

fn object(acronym: &str, settings: RawField) -> RawObject {
    RawObject { acronym: RawField::Text(acronym.to_owned()), settings }
}

fn done(outcome: Result<Resolution, ResolveError>) -> PyGameMods {
    match outcome {
        Ok(Resolution::Done(mods)) => mods,
        Ok(Resolution::Pending(_)) => panic!("resolution waits for a verdict"),
        Err(error) => panic!("resolution failed: {:?}", error),
    }
}

fn legacy(outcome: Result<Resolution, ResolveError>) -> GameModsLegacy {
    match done(outcome) {
        PyGameMods::Legacy(mods) => mods,
        _ => panic!("not the legacy form"),
    }
}

fn full(outcome: Result<Resolution, ResolveError>) -> GameMods {
    match done(outcome) {
        PyGameMods::Lazer(mods) => mods,
        _ => panic!("not the full form"),
    }
}

fn message(outcome: Result<Resolution, ResolveError>) -> String {
    match outcome {
        Err(ResolveError::Deserialize { message }) => message,
        Err(other) => panic!("another error: {:?}", other),
        Ok(_) => panic!("resolution did not fail"),
    }
}

#[test]
fn absent_value_is_no_mod_for_every_mode() {
    for mode in [PyGameMode::Osu, PyGameMode::Taiko, PyGameMode::Catch, PyGameMode::Mania] {
        assert_eq!(legacy(resolve(None, mode)), GameModsLegacy::NoMod);
    }
}

#[test]
fn integer_becomes_legacy_bits() {
    let mods = legacy(resolve(Some(ForeignValue::Integer(8 + 16)), PyGameMode::Osu));
    assert_eq!(mods.bits(), 24);
    assert_eq!(mods, GameModsLegacy::Hidden | GameModsLegacy::HardRock);
    let mods = legacy(resolve(Some(ForeignValue::Integer(0x3FFF_FFFF)), PyGameMode::Mania));
    assert_eq!(mods.bits(), 0x3FFF_FFFF);
}

#[test]
fn integer_loses_the_two_highest_bits() {
    let mods = legacy(resolve(Some(ForeignValue::Integer(1 << 30)), PyGameMode::Osu));
    assert_eq!(mods.bits(), 0);
    let mods = legacy(resolve(Some(ForeignValue::Integer(u32::MAX)), PyGameMode::Osu));
    assert_eq!(mods.bits(), 0x3FFF_FFFF);
}

#[test]
fn text_of_legacy_acronyms_collapses_to_legacy() {
    let mods = legacy(resolve(Some(ForeignValue::Text("HDHR".to_owned())), PyGameMode::Osu));
    assert_eq!(mods.bits(), 24);
    let mods = legacy(resolve(Some(ForeignValue::Text("hrdthd".to_owned())), PyGameMode::Taiko));
    assert_eq!(mods.bits(), 8 + 16 + 64);
    let mods = legacy(resolve(Some(ForeignValue::Text("NM".to_owned())), PyGameMode::Osu));
    assert_eq!(mods.bits(), 0);
}

#[test]
fn text_beyond_legacy_stays_a_set() {
    let outcome = resolve(Some(ForeignValue::Text("HDWU".to_owned())), PyGameMode::Osu);
    match done(outcome) {
        PyGameMods::Intermode(mods) => {
            assert_eq!(mods.len(), 2);
            assert!(mods.contains(GameModIntermode::Hidden));
            assert!(mods.contains(GameModIntermode::WindUp));
        },
        _ => panic!("not the set form"),
    }
}

#[test]
fn text_order_does_not_matter() {
    let first = match done(resolve(Some(ForeignValue::Text("WUHDCL".to_owned())), PyGameMode::Osu)) {
        PyGameMods::Intermode(mods) => mods,
        _ => panic!("not the set form"),
    };
    let second = match done(resolve(Some(ForeignValue::Text("CLWUHD".to_owned())), PyGameMode::Osu)) {
        PyGameMods::Intermode(mods) => mods,
        _ => panic!("not the set form"),
    };
    assert_eq!(first, second);
}

#[test]
fn text_round_trip_gives_the_same_set() {
    let first = match done(resolve(Some(ForeignValue::Text("WUHDCL".to_owned())), PyGameMode::Osu)) {
        PyGameMods::Intermode(mods) => mods,
        _ => panic!("not the set form"),
    };
    let text = acronym_text(&first).unwrap();
    assert_eq!(text, first.to_string());
    let again = match done(resolve(Some(ForeignValue::Text(text)), PyGameMode::Osu)) {
        PyGameMods::Intermode(mods) => mods,
        _ => panic!("not the set form"),
    };
    assert_eq!(first, again);
}

#[test]
fn text_with_unknown_acronym_fails() {
    let text = message(resolve(Some(ForeignValue::Text("HDQQ".to_owned())), PyGameMode::Osu));
    assert_eq!(text, "unknown modifier `QQ`");
    let text = message(resolve(Some(ForeignValue::Text("X".to_owned())), PyGameMode::Osu));
    assert_eq!(text, "unknown modifier `??`");
}

#[test]
fn single_reference_without_settings() {
    for mode in [PyGameMode::Osu, PyGameMode::Taiko, PyGameMode::Catch, PyGameMode::Mania] {
        let value = ForeignValue::Object(object("DT", RawField::Absent));
        let mods = full(resolve(Some(value), mode));
        let expected = GameMod::new("DT", rosu_mods::GameMode::from(mode.index()));
        assert_eq!(mods.len(), 1);
        assert_eq!(mods.to_string(), "DT");
        assert_eq!(mods.into_iter().next(), Some(expected));
    }
}

#[test]
fn null_settings_are_no_settings() {
    let value = ForeignValue::Object(object("HD", RawField::Null));
    let mods = full(resolve(Some(value), PyGameMode::Osu));
    assert_eq!(mods.into_iter().next(), Some(GameMod::HiddenOsu(Default::default())));
}

fn mixed_list(speed: SettingValue) -> ForeignValue {
    let settings = vec![SettingEntry { key: SettingKey::Text("speed_change".to_owned()), value: speed }];
    ForeignValue::List(vec![
        ListElement::Text("HD".to_owned()),
        ListElement::Object(object("DT", RawField::Mapping(settings))),
        ListElement::Integer(1 << 4),
    ])
}

#[test]
fn mixed_list_becomes_one_full_collection() {
    let value = mixed_list(SettingValue::Number(1.5f64.to_bits()));
    let pending = match resolve(Some(value), PyGameMode::Osu) {
        Ok(Resolution::Pending(pending)) => pending,
        _ => panic!("the reference needs a verdict"),
    };
    let reference = pending.request();
    assert_eq!(reference.acronym, "DT");
    let settings = reference.settings.as_ref().unwrap();
    assert_eq!(settings.len(), 1);
    assert!(matches!(&settings[0].key, SettingKey::Text(key) if key == "speed_change"));
    assert!(matches!(settings[0].value, SettingValue::Number(bits) if f64::from_bits(bits) == 1.5));
    let typed = GameMod::DoubleTimeOsu(DoubleTimeOsu { speed_change: Some(1.5), adjust_pitch: None });
    let mods = full(pending.supply(Ok(typed.clone())));
    assert_eq!(mods.len(), 3);
    assert_eq!(mods.to_string(), "DTHDHR");
    let held: Vec<GameMod> = mods.into_iter().collect();
    assert_eq!(
        held,
        vec![typed, GameMod::HiddenOsu(Default::default()), GameMod::HardRockOsu(Default::default())]
    );
}

#[test]
fn refused_settings_fail_the_whole_list() {
    let value = mixed_list(SettingValue::Bool(true));
    let pending = match resolve(Some(value), PyGameMode::Osu) {
        Ok(Resolution::Pending(pending)) => pending,
        _ => panic!("the reference needs a verdict"),
    };
    let refusal = "speed_change: invalid type: boolean `true`, expected f64".to_owned();
    let text = message(pending.supply(Err(refusal.clone())));
    assert_eq!(text, refusal);
}

#[test]
fn unknown_acronym_in_a_list_fails() {
    let value = ForeignValue::List(vec![ListElement::Text("HD".to_owned()), ListElement::Text("QQ".to_owned())]);
    let text = message(resolve(Some(value), PyGameMode::Osu));
    assert_eq!(text, "unknown modifier `QQ` for GameMode.Osu");
}

#[test]
fn acronym_of_another_mode_fails() {
    let value = ForeignValue::List(vec![ListElement::Text("FI".to_owned())]);
    let text = message(resolve(Some(value), PyGameMode::Osu));
    assert_eq!(text, "unknown modifier `FI` for GameMode.Osu");
    let value = ForeignValue::List(vec![ListElement::Text("FI".to_owned())]);
    let mods = full(resolve(Some(value), PyGameMode::Mania));
    assert_eq!(mods.to_string(), "FI");
}

#[test]
fn bits_in_a_list_must_name_one_modifier() {
    let value = ForeignValue::List(vec![ListElement::Integer(8 + 16)]);
    let text = message(resolve(Some(value), PyGameMode::Osu));
    assert_eq!(text, "invalid bits value `24`");
    let value = ForeignValue::List(vec![ListElement::Integer(64), ListElement::Integer(8)]);
    let mods = full(resolve(Some(value), PyGameMode::Catch));
    assert_eq!(mods.to_string(), "DTHD");
}

#[test]
fn unknown_verdict_is_refused() {
    let value = ForeignValue::Object(object("QQ", RawField::Mapping(Vec::new())));
    let pending = match resolve(Some(value), PyGameMode::Osu) {
        Ok(Resolution::Pending(pending)) => pending,
        _ => panic!("a reference needs a verdict"),
    };
    let verdict = GameMod::new("QQ", rosu_mods::GameMode::Osu);
    let text = message(pending.supply(Ok(verdict)));
    assert_eq!(text, "unknown modifier `QQ` for GameMode.Osu");
}

#[test]
fn verdict_on_another_modifier_is_refused() {
    let value = ForeignValue::Object(object("DT", RawField::Mapping(Vec::new())));
    let pending = match resolve(Some(value), PyGameMode::Osu) {
        Ok(Resolution::Pending(pending)) => pending,
        _ => panic!("a reference needs a verdict"),
    };
    let text = message(pending.supply(Ok(GameMod::HiddenOsu(Default::default()))));
    assert_eq!(text, "verdict on `HD` where `DT` was asked about");
    let value = ForeignValue::Object(object("DT", RawField::Mapping(Vec::new())));
    let pending = match resolve(Some(value), PyGameMode::Osu) {
        Ok(Resolution::Pending(pending)) => pending,
        _ => panic!("a reference needs a verdict"),
    };
    let text = message(pending.supply(Ok(GameMod::DoubleTimeTaiko(Default::default()))));
    assert_eq!(text, "unknown modifier `DT` for GameMode.Osu");
}

#[test]
fn empty_list_is_an_empty_full_collection() {
    let mods = full(resolve(Some(ForeignValue::List(Vec::new())), PyGameMode::Osu));
    assert!(mods.is_empty());
}

fn attempts(outcome: Result<Resolution, ResolveError>) -> (String, Vec<(Shape, Mismatch)>) {
    match outcome {
        Err(ResolveError::Unsupported { kind_name, attempts }) => {
            (kind_name, attempts.iter().map(|a| (a.shape, a.reason)).collect())
        },
        _ => panic!("not refused as unsupported"),
    }
}

#[test]
fn value_of_no_shape_is_unsupported() {
    let value = ForeignValue::Other { kind_name: "float".to_owned() };
    let (kind, tried) = attempts(resolve(Some(value), PyGameMode::Osu));
    assert_eq!(kind, "float");
    assert_eq!(
        tried,
        vec![
            (Shape::Integer, Mismatch::WrongType),
            (Shape::Text, Mismatch::WrongType),
            (Shape::Modifier, Mismatch::WrongType),
            (Shape::List, Mismatch::WrongType),
        ]
    );
}

#[test]
fn object_without_acronym_is_unsupported() {
    let value = ForeignValue::Object(RawObject { acronym: RawField::Absent, settings: RawField::Absent });
    let (kind, tried) = attempts(resolve(Some(value), PyGameMode::Osu));
    assert_eq!(kind, "dict");
    assert_eq!(tried[2], (Shape::Modifier, Mismatch::MissingAcronym));
    assert_eq!(tried[3], (Shape::List, Mismatch::WrongType));
    let value = ForeignValue::Object(RawObject { acronym: RawField::Null, settings: RawField::Absent });
    let (_, tried) = attempts(resolve(Some(value), PyGameMode::Osu));
    assert_eq!(tried[2], (Shape::Modifier, Mismatch::AcronymNotText));
    let value = ForeignValue::Object(object("DT", RawField::Text("fast".to_owned())));
    let (_, tried) = attempts(resolve(Some(value), PyGameMode::Osu));
    assert_eq!(tried[2], (Shape::Modifier, Mismatch::SettingsNotMapping));
}

#[test]
fn list_with_a_foreign_element_is_unsupported() {
    let value = ForeignValue::List(vec![
        ListElement::Text("QQ".to_owned()),
        ListElement::Other { kind_name: "float".to_owned() },
        ListElement::Other { kind_name: "tuple".to_owned() },
    ]);
    let (kind, tried) = attempts(resolve(Some(value), PyGameMode::Osu));
    assert_eq!(kind, "list");
    assert_eq!(tried[2], (Shape::Modifier, Mismatch::WrongType));
    assert_eq!(tried[3], (Shape::List, Mismatch::Element { index: 1 }));
}

#[test]
fn text_that_the_reader_cannot_take_fails() {
    let text = message(resolve(Some(ForeignValue::Text("SV2X".to_owned())), PyGameMode::Osu));
    assert_eq!(text, "unknown modifier in `SV2X`");
    let text = message(resolve(Some(ForeignValue::Text("hd10kx".to_owned())), PyGameMode::Mania));
    assert_eq!(text, "unknown modifier in `hd10kx`");
    let text = message(resolve(Some(ForeignValue::Text("HDé".to_owned())), PyGameMode::Osu));
    assert_eq!(text, "unknown modifier in `HDé`");
}

#[test]
fn text_with_three_letter_acronyms() {
    let outcome = resolve(Some(ForeignValue::Text("HD10K".to_owned())), PyGameMode::Mania);
    match done(outcome) {
        PyGameMods::Intermode(mods) => {
            assert_eq!(mods.len(), 2);
            assert!(mods.contains(GameModIntermode::Hidden));
            assert!(mods.contains(GameModIntermode::TenKeys));
        },
        _ => panic!("not the set form"),
    }
    let mods = legacy(resolve(Some(ForeignValue::Text("SV2".to_owned())), PyGameMode::Mania));
    assert_eq!(mods.bits(), 1 << 29);
}

#[test]
fn empty_text_is_no_mod() {
    let mods = legacy(resolve(Some(ForeignValue::Text(String::new())), PyGameMode::Osu));
    assert_eq!(mods.bits(), 0);
}

fn error_text(value: ForeignValue) -> String {
    match resolve(Some(value), PyGameMode::Osu) {
        Err(error) => error.message(),
        Ok(_) => panic!("resolution did not fail"),
    }
}

#[test]
fn unsupported_value_is_reported_shape_by_shape() {
    let text = error_text(ForeignValue::Other { kind_name: "float".to_owned() });
    assert_eq!(
        text,
        "failed to extract enum PyGameMods ('int | str | GameMod | List[GameMod | str | int]')\n\
         - variant Legacy (int): 'float' object cannot be converted\n\
         - variant Intermode (str): 'float' object cannot be converted\n\
         - variant GameMods (GameMod): 'float' object cannot be converted\n\
         - variant GameMods (List[GameMod | str | int]): 'float' object cannot be converted"
    );
}

#[test]
fn unsupported_object_and_list_name_their_reason() {
    let value = ForeignValue::Object(RawObject { acronym: RawField::Absent, settings: RawField::Null });
    let text = error_text(value);
    assert!(text.contains("\n- variant Legacy (int): 'dict' object cannot be converted\n"));
    assert!(text.contains("\n- variant GameMods (GameMod): missing field `acronym`\n"));
    assert!(text.ends_with("\n- variant GameMods (List[GameMod | str | int]): 'dict' object cannot be converted"));
    let mut elements: Vec<ListElement> = (0..12).map(|_| ListElement::Integer(8)).collect();
    elements.push(ListElement::Other { kind_name: "set".to_owned() });
    let text = error_text(ForeignValue::List(elements));
    assert!(text.contains("\n- variant GameMods (GameMod): 'list' object cannot be converted\n"));
    assert!(text.ends_with(
        "\n- variant GameMods (List[GameMod | str | int]): element 12 must be GameMod, str or int"
    ));
    let object = RawObject {
        acronym: RawField::Other { kind_name: "int".to_owned() },
        settings: RawField::Absent,
    };
    assert!(error_text(ForeignValue::Object(object)).contains("field `acronym` must be str"));
    let object = RawObject {
        acronym: RawField::Text("HD".to_owned()),
        settings: RawField::Other { kind_name: "int".to_owned() },
    };
    assert!(error_text(ForeignValue::Object(object)).contains("field `settings` must be dict or None"));
}

#[test]
fn refusal_is_shown_by_its_own_message() {
    let text = error_text(ForeignValue::Text("HDQQ".to_owned()));
    assert_eq!(text, "unknown modifier `QQ`");
}

#[test]
fn reference_with_empty_settings_waits_for_its_verdict() {
    let value = ForeignValue::Object(object("DT", RawField::Mapping(Vec::new())));
    let pending = match resolve(Some(value), PyGameMode::Taiko) {
        Ok(Resolution::Pending(pending)) => pending,
        _ => panic!("a reference with settings needs a verdict"),
    };
    assert_eq!(pending.request().acronym, "DT");
    assert_eq!(pending.request().settings.as_ref().map(Vec::len), Some(0));
    let verdict = GameMod::DoubleTimeTaiko(Default::default());
    let mods = full(pending.supply(Ok(verdict.clone())));
    assert_eq!(mods.into_iter().collect::<Vec<_>>(), vec![verdict]);
}

#[test]
fn unknown_reference_without_settings_fails() {
    let value = ForeignValue::Object(object("QQ", RawField::Absent));
    let text = message(resolve(Some(value), PyGameMode::Osu));
    assert_eq!(text, "unknown modifier `QQ` for GameMode.Osu");
    let value = ForeignValue::List(vec![
        ListElement::Integer(8),
        ListElement::Object(object("FI", RawField::Null)),
    ]);
    let text = message(resolve(Some(value), PyGameMode::Taiko));
    assert_eq!(text, "unknown modifier `FI` for GameMode.Taiko");
}

#[test]
fn text_with_a_bit_that_the_legacy_form_drops_stays_a_set() {
    let outcome = resolve(Some(ForeignValue::Text("MR".to_owned())), PyGameMode::Osu);
    match done(outcome) {
        PyGameMods::Intermode(mods) => {
            assert_eq!(mods.len(), 1);
            assert!(mods.contains(GameModIntermode::Mirror));
        },
        _ => panic!("not the set form"),
    }
    let outcome = resolve(Some(ForeignValue::Text("HDMR".to_owned())), PyGameMode::Mania);
    match done(outcome) {
        PyGameMods::Intermode(mods) => {
            assert_eq!(mods.len(), 2);
            assert!(mods.contains(GameModIntermode::Hidden));
            assert!(mods.contains(GameModIntermode::Mirror));
        },
        _ => panic!("not the set form"),
    }
    let mods = legacy(resolve(Some(ForeignValue::Text("HDSV2".to_owned())), PyGameMode::Osu));
    assert_eq!(mods.bits(), 8 + (1 << 29));
}

#[test]
fn written_sets_read_back() {
    for (text, written) in [("", ""), ("hd10k", "HD10K"), ("WUHD", "HDWU"), ("QQHD", "HDQQ"), ("SV2MR", "MRSV2")] {
        let set = rosu_mods::GameModsIntermode::from_acronyms(text);
        let again = acronym_text(&set).unwrap();
        assert_eq!(again, written);
        assert_eq!(rosu_mods::GameModsIntermode::from_acronyms(&again), set);
    }
}

#[test]
fn set_that_does_not_read_back_has_no_text() {
    let stray: rosu_mods::Acronym = "X".repeat(3).parse().unwrap();
    let mut set = rosu_mods::GameModsIntermode::new();
    set.insert(GameModIntermode::Unknown(rosu_mods::generated_mods::UnknownMod { acronym: stray }));
    assert_eq!(acronym_text(&set), Some("XXX".to_owned()));
    let hidden: rosu_mods::Acronym = "HD".parse().unwrap();
    let mut set = rosu_mods::GameModsIntermode::new();
    set.insert(GameModIntermode::Unknown(rosu_mods::generated_mods::UnknownMod { acronym: hidden }));
    assert_eq!(acronym_text(&set), None);
}
