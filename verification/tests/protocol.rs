use komorebi::direction::{Axis, CycleDirection, OperationDirection};
use komorebi::json::Json;
use komorebi::layout::DefaultLayout;
use komorebi::message::{CommandKind, SocketMessage, WireError};
use komorebi::rect::Rect;
use komorebi::settings::{
    ApplicationIdentifier, FocusFollowsMouseImplementation, HidingBehaviour, StateQuery,
    WindowContainerBehaviour,
};
use komorebi::sizing::Sizing;
use std::str::FromStr;

fn wire(message: &SocketMessage) -> String {
    String::from_utf8(message.as_bytes().unwrap()).unwrap()
}

fn samples() -> Vec<SocketMessage> {
    let rect = Rect { left: 7, top: 0, right: 14, bottom: -7 };
    vec![
        SocketMessage::FocusWindow(OperationDirection::Left),
        SocketMessage::MoveWindow(OperationDirection::Right),
        SocketMessage::CycleFocusWindow(CycleDirection::Previous),
        SocketMessage::CycleMoveWindow(CycleDirection::Next),
        SocketMessage::StackWindow(OperationDirection::Up),
        SocketMessage::ResizeWindowEdge(OperationDirection::Down, Sizing::Increase),
        SocketMessage::ResizeWindowAxis(Axis::HorizontalAndVertical, Sizing::Decrease),
        SocketMessage::UnstackWindow,
        SocketMessage::CycleStack(CycleDirection::Next),
        SocketMessage::MoveContainerToMonitorNumber(0),
        SocketMessage::MoveContainerToWorkspaceNumber(1),
        SocketMessage::SendContainerToMonitorNumber(2),
        SocketMessage::SendContainerToWorkspaceNumber(3),
        SocketMessage::MoveWorkspaceToMonitorNumber(usize::MAX),
        SocketMessage::Promote,
        SocketMessage::ToggleFloat,
        SocketMessage::ToggleMonocle,
        SocketMessage::ToggleMaximize,
        SocketMessage::ToggleWindowContainerBehaviour,
        SocketMessage::WindowHidingBehaviour(HidingBehaviour::Minimize),
        SocketMessage::ManageFocusedWindow,
        SocketMessage::UnmanageFocusedWindow,
        SocketMessage::AdjustContainerPadding(Sizing::Increase, 5),
        SocketMessage::AdjustWorkspacePadding(Sizing::Decrease, -5),
        SocketMessage::ChangeLayout(DefaultLayout::UltrawideVerticalStack),
        SocketMessage::ChangeLayoutCustom(String::from("C:\\layouts\\wide.json")),
        SocketMessage::FlipLayout(Axis::Vertical),
        SocketMessage::EnsureWorkspaces(0, 5),
        SocketMessage::NewWorkspace,
        SocketMessage::ToggleTiling,
        SocketMessage::Stop,
        SocketMessage::TogglePause,
        SocketMessage::Retile,
        SocketMessage::QuickSave,
        SocketMessage::QuickLoad,
        SocketMessage::Save(String::from("state.json")),
        SocketMessage::Load(String::from("state \"old\".json")),
        SocketMessage::CycleFocusMonitor(CycleDirection::Previous),
        SocketMessage::CycleFocusWorkspace(CycleDirection::Next),
        SocketMessage::FocusMonitorNumber(1),
        SocketMessage::FocusWorkspaceNumber(4),
        SocketMessage::FocusMonitorWorkspaceNumber(1, 4),
        SocketMessage::ContainerPadding(0, 1, 20),
        SocketMessage::WorkspacePadding(0, 1, i32::MIN),
        SocketMessage::WorkspaceTiling(0, 2, false),
        SocketMessage::WorkspaceName(0, 2, String::from("web \u{1F310}")),
        SocketMessage::WorkspaceLayout(1, 0, DefaultLayout::BSP),
        SocketMessage::WorkspaceLayoutCustom(1, 0, String::from("custom.yaml")),
        SocketMessage::ReloadConfiguration,
        SocketMessage::WatchConfiguration(true),
        SocketMessage::InvisibleBorders(rect),
        SocketMessage::WorkAreaOffset(rect),
        SocketMessage::ResizeDelta(i32::MAX),
        SocketMessage::WorkspaceRule(ApplicationIdentifier::Exe, String::from("app.exe"), 2, 1),
        SocketMessage::FloatRule(ApplicationIdentifier::Class, String::from("Dialog")),
        SocketMessage::ManageRule(ApplicationIdentifier::Title, String::from("Editor")),
        SocketMessage::IdentifyTrayApplication(ApplicationIdentifier::Exe, String::from("t.exe")),
        SocketMessage::IdentifyBorderOverflow(ApplicationIdentifier::Exe, String::from("b.exe")),
        SocketMessage::State,
        SocketMessage::Query(StateQuery::FocusedContainerIndex),
        SocketMessage::FocusFollowsMouse(FocusFollowsMouseImplementation::Komorebi, true),
        SocketMessage::ToggleFocusFollowsMouse(FocusFollowsMouseImplementation::Windows),
        SocketMessage::MouseFollowsFocus(false),
        SocketMessage::ToggleMouseFollowsFocus,
        SocketMessage::AddSubscriber(String::from("bar")),
        SocketMessage::RemoveSubscriber(String::from("")),
    ]
}

#[test]
fn workspace_rule_round_trips() {
    let message =
        SocketMessage::WorkspaceRule(ApplicationIdentifier::Exe, String::from("app.exe"), 2, 1);
    let bytes = message.as_bytes().unwrap();
    assert_eq!(
        String::from_utf8(bytes.clone()).unwrap(),
        r#"{"type":"WorkspaceRule","content":["Exe","app.exe",2,1]}"#
    );
    let decoded = SocketMessage::from_str(std::str::from_utf8(&bytes).unwrap());
    assert_eq!(decoded, Ok(message));
}

#[test]
fn every_command_round_trips() {
    let samples = samples();
    assert_eq!(samples.len(), 66);
    for message in samples {
        let text = wire(&message);
        assert_eq!(SocketMessage::from_text(&text), Ok(message.clone()), "{}", text);
        assert_eq!(SocketMessage::from_json(&message.to_json()), Ok(message));
    }
}

#[test]
fn every_kind_is_found_by_its_name() {
    for message in samples() {
        let kind = message.kind();
        assert_eq!(CommandKind::from_name(kind.name()), Some(kind));
    }
    assert_eq!(CommandKind::from_name("focuswindow"), None);
    assert_eq!(CommandKind::from_name(""), None);
    assert_eq!(CommandKind::Stop.name(), "Stop");
    assert_eq!(SocketMessage::Retile.kind(), CommandKind::Retile);
}

#[test]
fn command_without_arguments_has_no_content() {
    assert_eq!(wire(&SocketMessage::Stop), r#"{"type":"Stop"}"#);
    assert_eq!(SocketMessage::from_text(r#"{"type":"Stop"}"#), Ok(SocketMessage::Stop));
    assert_eq!(
        SocketMessage::from_text(r#"{"type":"Stop","content":null}"#),
        Err(WireError::NotACommand)
    );
    assert_eq!(
        SocketMessage::from_text(r#"{"type":"Stop","content":[]}"#),
        Err(WireError::NotACommand)
    );
}

#[test]
fn single_argument_is_the_content_itself() {
    assert_eq!(
        wire(&SocketMessage::FocusWindow(OperationDirection::Left)),
        r#"{"type":"FocusWindow","content":"Left"}"#
    );
    assert_eq!(
        wire(&SocketMessage::FocusWorkspaceNumber(3)),
        r#"{"type":"FocusWorkspaceNumber","content":3}"#
    );
    assert_eq!(
        wire(&SocketMessage::WatchConfiguration(true)),
        r#"{"type":"WatchConfiguration","content":true}"#
    );
    assert_eq!(wire(&SocketMessage::ResizeDelta(-50)), r#"{"type":"ResizeDelta","content":-50}"#);
    assert_eq!(
        wire(&SocketMessage::Save(String::from("a\"b"))),
        r#"{"type":"Save","content":"a\"b"}"#
    );
    assert_eq!(
        SocketMessage::from_text(r#"{"type":"FocusWorkspaceNumber","content":[3]}"#),
        Err(WireError::NotACommand)
    );
}

#[test]
fn several_arguments_are_a_list_in_order() {
    assert_eq!(
        wire(&SocketMessage::WorkspaceName(1, 2, String::from("mail"))),
        r#"{"type":"WorkspaceName","content":[1,2,"mail"]}"#
    );
    assert_eq!(
        wire(&SocketMessage::AdjustContainerPadding(Sizing::Decrease, 4)),
        r#"{"type":"AdjustContainerPadding","content":["Decrease",4]}"#
    );
    assert_eq!(
        SocketMessage::from_text(r#"{"type":"WorkspaceName","content":[1,"mail",2]}"#),
        Err(WireError::NotACommand)
    );
    assert_eq!(
        SocketMessage::from_text(r#"{"type":"WorkspaceName","content":[1,2]}"#),
        Err(WireError::NotACommand)
    );
    assert_eq!(
        SocketMessage::from_text(r#"{"type":"WorkspaceName","content":[1,2,"mail",3]}"#),
        Err(WireError::NotACommand)
    );
}

#[test]
fn rectangle_is_an_object_of_its_sides() {
    let message = SocketMessage::InvisibleBorders(Rect { left: 7, top: 0, right: 14, bottom: 7 });
    assert_eq!(
        wire(&message),
        r#"{"type":"InvisibleBorders","content":{"left":7,"top":0,"right":14,"bottom":7}}"#
    );
    assert_eq!(
        SocketMessage::from_text(
            r#"{"type":"InvisibleBorders","content":{"left":7,"top":0,"right":14}}"#
        ),
        Err(WireError::NotACommand)
    );
    assert_eq!(
        SocketMessage::from_text(
            r#"{"type":"InvisibleBorders","content":{"top":0,"left":7,"right":14,"bottom":7}}"#
        ),
        Err(WireError::NotACommand)
    );
    assert_eq!(
        SocketMessage::from_text(
            r#"{"type":"InvisibleBorders","content":{"left":7,"top":0,"right":14,"bottom":2147483648}}"#
        ),
        Err(WireError::NotACommand)
    );
}

#[test]
fn text_that_is_not_json_is_rejected() {
    assert_eq!(SocketMessage::from_text(""), Err(WireError::NotJson));
    assert_eq!(SocketMessage::from_text("{\"type\":\"Stop\""), Err(WireError::NotJson));
    assert_eq!(SocketMessage::from_text("{\"type\":\"Stop\"} x"), Err(WireError::NotJson));
    assert_eq!(SocketMessage::from_str("Stop"), Err(WireError::NotJson));
}

#[test]
fn unknown_tag_is_rejected() {
    assert_eq!(SocketMessage::from_text(r#"{"type":"Explode"}"#), Err(WireError::NotACommand));
    assert_eq!(SocketMessage::from_text(r#"{"type":"stop"}"#), Err(WireError::NotACommand));
    assert_eq!(SocketMessage::from_text(r#"{"type":7}"#), Err(WireError::NotACommand));
    assert_eq!(SocketMessage::from_text(r#"{"content":3}"#), Err(WireError::NotACommand));
    assert_eq!(SocketMessage::from_text(r#"{}"#), Err(WireError::NotACommand));
    assert_eq!(SocketMessage::from_text(r#""Stop""#), Err(WireError::NotACommand));
    assert_eq!(SocketMessage::from_text(r#"["Stop"]"#), Err(WireError::NotACommand));
}

#[test]
fn malformed_content_is_rejected() {
    assert_eq!(
        SocketMessage::from_text(r#"{"type":"FocusWindow","content":"Sideways"}"#),
        Err(WireError::NotACommand)
    );
    assert_eq!(
        SocketMessage::from_text(r#"{"type":"FocusWindow"}"#),
        Err(WireError::NotACommand)
    );
    assert_eq!(
        SocketMessage::from_text(r#"{"type":"FocusWorkspaceNumber","content":-1}"#),
        Err(WireError::NotACommand)
    );
    assert_eq!(
        SocketMessage::from_text(r#"{"type":"FocusWorkspaceNumber","content":1.5}"#),
        Err(WireError::NotACommand)
    );
    assert_eq!(
        SocketMessage::from_text(r#"{"type":"ResizeDelta","content":2147483648}"#),
        Err(WireError::NotACommand)
    );
    assert_eq!(
        SocketMessage::from_text(r#"{"type":"ResizeDelta","content":-2147483649}"#),
        Err(WireError::NotACommand)
    );
    assert_eq!(
        SocketMessage::from_text(r#"{"type":"ResizeDelta","content":-2147483648}"#),
        Ok(SocketMessage::ResizeDelta(i32::MIN))
    );
    assert_eq!(
        SocketMessage::from_text(r#"{"type":"MouseFollowsFocus","content":"true"}"#),
        Err(WireError::NotACommand)
    );
}

#[test]
fn members_other_than_type_then_content_are_rejected() {
    assert_eq!(
        SocketMessage::from_text(r#"{"content":3,"type":"FocusWorkspaceNumber"}"#),
        Err(WireError::NotACommand)
    );
    assert_eq!(
        SocketMessage::from_text(r#"{"type":"FocusWorkspaceNumber","content":3,"extra":1}"#),
        Err(WireError::NotACommand)
    );
    assert_eq!(
        SocketMessage::from_text(r#"{"type":"Stop","extra":1}"#),
        Err(WireError::NotACommand)
    );
}

#[test]
fn layout_of_the_text_does_not_matter() {
    assert_eq!(
        SocketMessage::from_text(" {\n \"type\" : \"WorkspaceTiling\", \"content\" : [ 0, 1, true ]\n} "),
        Ok(SocketMessage::WorkspaceTiling(0, 1, true))
    );
}

#[test]
fn json_text_is_read_into_a_tree() {
    assert_eq!(Json::parse("null"), Some(Json::Null));
    assert_eq!(Json::parse("18446744073709551615"), Some(Json::Unsigned(u64::MAX)));
    assert_eq!(Json::parse("-9223372036854775808"), Some(Json::Negative(i64::MIN)));
    assert_eq!(Json::parse("0.5"), Some(Json::Fraction));
    assert_eq!(Json::parse("18446744073709551616"), Some(Json::Fraction));
    assert_eq!(
        Json::parse(r#"{"b":[true,"x"],"a":{}}"#),
        Some(Json::Object(vec![
            (String::from("b"), Json::List(vec![Json::Bool(true), Json::Text(String::from("x"))])),
            (String::from("a"), Json::Object(vec![])),
        ]))
    );
    assert_eq!(Json::parse("[1,"), None);
}

#[test]
fn json_parts_are_taken_by_shape() {
    let pair = Json::pair(Json::index(1), Json::number(-2));
    assert_eq!(pair, Json::List(vec![Json::Unsigned(1), Json::Negative(-2)]));
    assert_eq!(pair.as_pair(), Some((&Json::Unsigned(1), &Json::Negative(-2))));
    assert_eq!(pair.as_triple(), None);
    assert_eq!(pair.as_quad(), None);
    assert_eq!(Json::number(5), Json::Unsigned(5));
    assert_eq!(Json::Unsigned(5).as_int(), Some(5));
    assert_eq!(Json::Negative(-5).as_int(), Some(-5));
    assert_eq!(Json::Negative(5).as_int(), None);
    assert_eq!(Json::Negative(-5).as_index(), None);
    assert_eq!(Json::Unsigned(5).as_index(), Some(5));
    assert_eq!(Json::flag(true).as_flag(), Some(true));
    assert_eq!(Json::text("x").as_text(), Some("x"));
    assert_eq!(Json::text("x").as_flag(), None);
    assert_eq!(Json::Null.as_text(), None);
    let triple = Json::triple(Json::Null, Json::Null, Json::flag(false));
    assert_eq!(triple.as_triple(), Some((&Json::Null, &Json::Null, &Json::Bool(false))));
    let quad = Json::quad(Json::Null, Json::Null, Json::Null, Json::index(9));
    assert_eq!(quad.as_quad(), Some((&Json::Null, &Json::Null, &Json::Null, &Json::Unsigned(9))));
}

#[test]
fn names_of_choices() {
    assert_eq!(OperationDirection::Left.name(), "Left");
    assert_eq!(OperationDirection::from_name("Down"), Some(OperationDirection::Down));
    assert_eq!(OperationDirection::from_name("down"), None);
    assert_eq!(CycleDirection::from_name("Next"), Some(CycleDirection::Next));
    assert_eq!(Axis::from_name("HorizontalAndVertical"), Some(Axis::HorizontalAndVertical));
    assert_eq!(Sizing::from_name("Increase"), Some(Sizing::Increase));
    assert_eq!(DefaultLayout::from_name("BSP"), Some(DefaultLayout::BSP));
    assert_eq!(DefaultLayout::Rows.name(), "Rows");
    assert_eq!(StateQuery::from_name("FocusedWindowIndex"), Some(StateQuery::FocusedWindowIndex));
    assert_eq!(ApplicationIdentifier::from_name("Title"), Some(ApplicationIdentifier::Title));
    assert_eq!(
        FocusFollowsMouseImplementation::from_name("Windows"),
        Some(FocusFollowsMouseImplementation::Windows)
    );
    assert_eq!(HidingBehaviour::from_name("Hide"), Some(HidingBehaviour::Hide));
    assert_eq!(
        WindowContainerBehaviour::from_name("Append"),
        Some(WindowContainerBehaviour::Append)
    );
    assert_eq!(WindowContainerBehaviour::Create.to_json(), Json::Text(String::from("Create")));
    assert_eq!(HidingBehaviour::from_json(&Json::Unsigned(1)), None);
}

#[test]
fn rectangle_document() {
    let rect = Rect { left: -1, top: 2, right: 3, bottom: 4 };
    let json = rect.to_json();
    assert_eq!(
        json,
        Json::Object(vec![
            (String::from("left"), Json::Negative(-1)),
            (String::from("top"), Json::Unsigned(2)),
            (String::from("right"), Json::Unsigned(3)),
            (String::from("bottom"), Json::Unsigned(4)),
        ])
    );
    assert_eq!(Rect::from_json(&json), Some(rect));
    assert_eq!(Rect::from_json(&Json::Null), None);
}

#[test]
fn sizing_adjusts_without_going_negative() {
    assert_eq!(Sizing::Decrease.adjust_by(0, 5), 0);
    assert_eq!(Sizing::Decrease.adjust_by(3, 5), 3);
    assert_eq!(Sizing::Increase.adjust_by(3, 5), 8);
    assert_eq!(Sizing::Decrease.adjust_by(5, 5), 0);
    assert_eq!(Sizing::Decrease.adjust_by(8, 5), 3);
    assert_eq!(Sizing::Decrease.adjust_by(-4, 1), -4);
    assert_eq!(Sizing::Decrease.adjust_by(4, -1), 5);
    assert_eq!(Sizing::Increase.adjust_by(3, -5), -2);
}
