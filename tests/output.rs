use i3_status_checks::display::{
    set_text_threshold_color, I3Display, I3DisplayError, I3StatusRustColorState, OutputType,
};

#[test]
fn json_without_icon_has_no_icon_key() {
    let d = I3Display::new(
        None,
        "50%".to_string(),
        "50%".to_string(),
        Some(I3StatusRustColorState::I3StatusRustStateWarning),
    );
    assert_eq!(d.render(OutputType::I3StatusRust), r#"{"text":"50%","short_text":"50%","state":"Warning"}"#);
}

#[test]
fn json_with_icon_and_colour_code() {
    let d = I3Display::new(
        Some("cpu".to_string()),
        "long".to_string(),
        "short".to_string(),
        Some(I3StatusRustColorState::HtmlColorCode("#FF0000".to_string())),
    );
    assert_eq!(
        d.render(OutputType::I3StatusRust),
        r##"{"text":"long","short_text":"short","icon":"cpu","state":"#FF0000"}"##
    );
    let bare = I3Display::new(None, "a".to_string(), "b".to_string(), None);
    assert_eq!(bare.render(OutputType::I3StatusRust), r#"{"text":"a","short_text":"b"}"#);
}

#[test]
fn plain_text_protocol() {
    let d = I3Display::new(None, "50%".to_string(), "5".to_string(), None);
    assert_eq!(d.render(OutputType::I3Blocks), "50%\n5");
    let d = I3Display::new(
        Some("X".to_string()),
        "50%".to_string(),
        "5".to_string(),
        Some(I3StatusRustColorState::I3StatusRustStateCritical),
    );
    assert_eq!(d.render(OutputType::I3Blocks), "X 50%\n5\nCritical");
}

#[test]
fn rendering_twice_gives_the_same_text() {
    let make = || {
        I3Display::new(None, "1".to_string(), "2".to_string(), Some(I3StatusRustColorState::I3StatusRustStateGood))
    };
    assert_eq!(make().render(OutputType::I3StatusRust), make().render(OutputType::I3StatusRust));
    assert_eq!(make().render(OutputType::I3Blocks), make().render(OutputType::I3Blocks));
}

#[test]
fn nothing_and_errors() {
    assert!(I3Display::render_nothing(OutputType::I3Blocks).is_none());
    assert_eq!(I3Display::render_nothing(OutputType::I3StatusRust).unwrap(), "{}");
    let e = I3DisplayError::from("bad".to_string());
    assert_eq!(e.render(OutputType::I3Blocks), "bad");
    assert_eq!(e.render(OutputType::I3StatusRust), "{bad}");
}

#[test]
fn state_names() {
    assert_eq!(I3StatusRustColorState::I3StatusRustStateIdle.to_string(), "Idle");
    assert_eq!(I3StatusRustColorState::I3StatusRustStateInfo.to_string(), "Info");
    assert_eq!(I3StatusRustColorState::I3StatusRustStateGood.to_string(), "Good");
    assert_eq!(I3StatusRustColorState::I3StatusRustStateCritical.to_string(), "Critical");
}

#[test]
fn markup_colours() {
    assert_eq!(set_text_threshold_color(5, 7, 10, 10, Some("v".to_string())), "<span color='#F5737E'>v</span>");
    assert_eq!(set_text_threshold_color(5, 7, 10, 8, Some("v".to_string())), "<span color='orange'>v</span>");
    assert_eq!(set_text_threshold_color(5, 7, 10, 5, Some("v".to_string())), "<span color='yellow'>v</span>");
    assert_eq!(set_text_threshold_color(5, 7, 10, 4, Some("v".to_string())), "v");
    assert_eq!(set_text_threshold_color(5, 7, 10, 4, None), "4");
}
