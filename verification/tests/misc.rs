use component_routing::moniker::{AbsoluteMoniker, RelativeMoniker};
use component_routing::point::point_t;
use component_routing::terminal::TerminalAssistant;

#[test]
fn point_equality_is_structural() {
    let a = point_t { x: -3, y: 14 };
    let b = point_t { x: -3, y: 14 };
    let c = point_t { x: 0, y: 14 };
    assert_eq!(a, b);
    assert_ne!(a, c);
}

#[test]
fn terminal_assistant_builds() {
    let _app = TerminalAssistant::new();
}

#[test]
fn relative_moniker_from_absolute_walks_through_the_common_ancestor() {
    let from = AbsoluteMoniker::new(vec!["a:0".to_string(), "b:1".to_string()]);
    let to = AbsoluteMoniker::new(vec!["a:0".to_string(), "c:2".to_string(), "d:3".to_string()]);
    let rel = RelativeMoniker::from_absolute(&from, &to);
    assert_eq!(rel.up_path(), &vec!["b:1".to_string()]);
    assert_eq!(rel.down_path(), &vec!["c:2".to_string(), "d:3".to_string()]);

    let from_root = RelativeMoniker::from_absolute(&AbsoluteMoniker::root(), &to);
    assert!(from_root.up_path().is_empty());
    assert_eq!(
        from_root.down_path(),
        &vec!["a:0".to_string(), "c:2".to_string(), "d:3".to_string()]
    );
}

#[test]
fn absolute_moniker_equality_is_structural() {
    let a = AbsoluteMoniker::new(vec!["a:0".to_string()]);
    let b = AbsoluteMoniker::new(vec!["a:0".to_string()]);
    assert_eq!(a, b);
    assert_ne!(a, AbsoluteMoniker::root());
    assert!(AbsoluteMoniker::root().is_root());
    assert!(!a.is_root());
    assert_eq!(a.path(), &vec!["a:0".to_string()]);
}
