use rosu_pp_py::format::push_decimal;
use rosu_pp_py::{BoolFormatter, PyGameMode, PyHitResultPriority, PyScoreState};

#[test]
fn bool_formatter_shows_capitalised_words() {
    assert_eq!(BoolFormatter(true).repr(), "True");
    assert_eq!(BoolFormatter(false).repr(), "False");
}

#[test]
fn decimal_forms() {
    for (number, expected) in [(0u64, "0"), (7, "7"), (10, "10"), (109, "109"), (u64::MAX, "18446744073709551615")] {
        let mut text = String::from("n=");
        push_decimal(&mut text, number);
        assert_eq!(text, format!("n={}", expected));
    }
}

#[test]
fn score_state_default_is_all_zero() {
    let state = PyScoreState::default();
    assert_eq!(
        state.__repr__(),
        "ScoreState { max_combo: 0, osu_large_tick_hits: 0, osu_small_tick_hits: 0, \
         slider_end_hits: 0, n_geki: 0, n_katu: 0, n300: 0, n100: 0, n50: 0, misses: 0 }"
    );
}

#[test]
fn score_state_repr_names_every_field() {
    let state = PyScoreState {
        max_combo: 1234,
        osu_large_tick_hits: 2,
        osu_small_tick_hits: 3,
        slider_end_hits: 40,
        n_geki: 5,
        n_katu: 6,
        n300: 700,
        n100: 8,
        n50: 9,
        misses: 10,
    };
    assert_eq!(
        state.__repr__(),
        "ScoreState { max_combo: 1234, osu_large_tick_hits: 2, osu_small_tick_hits: 3, \
         slider_end_hits: 40, n_geki: 5, n_katu: 6, n300: 700, n100: 8, n50: 9, misses: 10 }"
    );
    assert_eq!(state.__repr__(), format!("{:?}", state).replace("PyScoreState", "ScoreState"));
}

#[test]
fn mode_tags_and_names() {
    let modes = [PyGameMode::Osu, PyGameMode::Taiko, PyGameMode::Catch, PyGameMode::Mania];
    for (tag, mode) in modes.into_iter().enumerate() {
        assert_eq!(mode.index() as usize, tag);
        assert_eq!(PyGameMode::from_index(tag as u8), mode);
    }
    assert_eq!(PyGameMode::from_index(4), PyGameMode::Osu);
    assert_eq!(PyGameMode::from_index(255), PyGameMode::Osu);
    assert_eq!(PyGameMode::default(), PyGameMode::Osu);
    assert_eq!(PyGameMode::Osu.repr(), "GameMode.Osu");
    assert_eq!(PyGameMode::Taiko.repr(), "GameMode.Taiko");
    assert_eq!(PyGameMode::Catch.repr(), "GameMode.Catch");
    assert_eq!(PyGameMode::Mania.repr(), "GameMode.Mania");
}

#[test]
fn hit_result_priority_defaults_to_best_case() {
    assert_eq!(PyHitResultPriority::default(), PyHitResultPriority::BestCase);
}

#[test]
fn score_state_from_keywords() {
    let kwargs = vec![
        ("n300".to_owned(), Some(123)),
        ("misses".to_owned(), Some(4)),
        ("max_combo".to_owned(), Some(567)),
        ("n300".to_owned(), Some(124)),
    ];
    let state = PyScoreState::new(Some(&kwargs)).unwrap();
    let expected = PyScoreState { n300: 124, misses: 4, max_combo: 567, ..PyScoreState::default() };
    assert_eq!(state, expected);
    assert_eq!(PyScoreState::new(None).unwrap(), PyScoreState::default());
    assert_eq!(PyScoreState::new(Some(&Vec::new())).unwrap(), PyScoreState::default());
}

#[test]
fn score_state_names_every_field_as_keyword() {
    let names = PyScoreState::field_names();
    assert_eq!(names.len(), 10);
    for (position, name) in names.iter().enumerate() {
        let kwargs = vec![(name.to_string(), Some(position as u32 + 1))];
        let state = PyScoreState::new(Some(&kwargs)).unwrap();
        let shown = state.__repr__();
        assert!(shown.contains(&format!("{}: {}", name, position + 1)));
        assert_eq!(state, PyScoreState::default().with_field(position, position as u32 + 1));
    }
}

#[test]
fn score_state_refuses_unknown_keyword() {
    let kwargs = vec![("n300".to_owned(), Some(1)), ("n200".to_owned(), Some(2))];
    match PyScoreState::new(Some(&kwargs)) {
        Err(rosu_pp_py::kwargs::KwargError::Unexpected { message }) => assert_eq!(
            message,
            "unexpected kwarg 'n200': expected max_combo, osu_large_tick_hits, \
             osu_small_tick_hits, slider_end_hits, n_geki, n_katu, n300, n100, n50, misses"
        ),
        _ => panic!("the keyword had to be refused"),
    }
}

#[test]
fn score_state_refuses_value_that_is_no_integer() {
    let kwargs = vec![("n_katu".to_owned(), None), ("n200".to_owned(), Some(2))];
    match PyScoreState::new(Some(&kwargs)) {
        Err(rosu_pp_py::kwargs::KwargError::Type { message }) => {
            assert_eq!(message, "kwarg 'n_katu': must be int")
        },
        _ => panic!("the value had to be refused"),
    }
}

#[test]
fn keyword_lookup_and_messages() {
    let names = vec!["path", "content", "bytes"];
    assert_eq!(rosu_pp_py::kwargs::find_kwarg("content", &names), Some(1));
    assert_eq!(rosu_pp_py::kwargs::find_kwarg("Content", &names), None);
    assert_eq!(rosu_pp_py::kwargs::find_kwarg("", &names), None);
    assert_eq!(
        rosu_pp_py::kwargs::unexpected_kwarg("file", &names),
        "unexpected kwarg 'file': expected path, content, bytes"
    );
    assert_eq!(rosu_pp_py::kwargs::unexpected_kwarg("file", &Vec::new()), "unexpected kwarg 'file': expected ");
    assert_eq!(rosu_pp_py::kwargs::wrong_kwarg_type("ar", "float"), "kwarg 'ar': must be float");
    assert!(rosu_pp_py::kwargs::same_text("ar", "ar"));
    assert!(!rosu_pp_py::kwargs::same_text("ar", "AR"));
}

#[test]
fn parse_failure_lists_every_cause() {
    let causes = vec!["failed to read file".to_owned(), "No such file or directory (os error 2)".to_owned()];
    assert_eq!(
        rosu_pp_py::error::parse_failure_message(&causes),
        "Failed to parse beatmap\n  - caused by: failed to read file\n  - caused by: No such file or directory (os error 2)"
    );
    assert_eq!(rosu_pp_py::error::parse_failure_message(&Vec::new()), "Failed to parse beatmap");
}
