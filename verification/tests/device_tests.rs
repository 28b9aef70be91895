use dicta_core::devices::resolve_input_device;
use dicta_core::text::trimmed;
use dicta_core::devices::DeviceChoice;

fn names(list: &[&str]) -> Vec<String> {
    list.iter().map(|s| s.to_string()).collect()
}

#[test]
fn no_request_uses_default() {
    let ns = names(&["Mic A", "Mic B"]);
    assert_eq!(resolve_input_device(&ns, None), DeviceChoice::SystemDefault);
}

#[test]
fn exact_match_wins() {
    let ns = names(&["Mic A", "Mic B", "Mic C"]);
    assert_eq!(
        resolve_input_device(&ns, Some("Mic B")),
        DeviceChoice::Named(1)
    );
}

#[test]
fn first_of_equal_names_wins() {
    let ns = names(&["Mic", "Mic"]);
    assert_eq!(resolve_input_device(&ns, Some("Mic")), DeviceChoice::Named(0));
}

#[test]
fn trimmed_match_when_exact_fails() {
    let ns = names(&[" Mic A ", "Mic B"]);
    assert_eq!(
        resolve_input_device(&ns, Some("Mic A")),
        DeviceChoice::Named(0)
    );
    assert_eq!(
        resolve_input_device(&ns, Some("  Mic B\n")),
        DeviceChoice::Named(1)
    );
}

#[test]
fn exact_match_beats_trimmed_match() {
    let ns = names(&[" Mic ", "Mic"]);
    assert_eq!(resolve_input_device(&ns, Some("Mic")), DeviceChoice::Named(1));
}

#[test]
fn unknown_name_falls_back_to_default() {
    // A non-existent device name yields the default device, not a failure.
    let ns = names(&["Mic A", "Mic B"]);
    assert_eq!(
        resolve_input_device(&ns, Some("Ghost Mic")),
        DeviceChoice::SystemDefault
    );
}

#[test]
fn empty_list_falls_back_to_default() {
    let ns: Vec<String> = Vec::new();
    assert_eq!(
        resolve_input_device(&ns, Some("Mic")),
        DeviceChoice::SystemDefault
    );
}

#[test]
fn trimming_removes_edge_whitespace_only() {
    assert_eq!(trimmed("  a b  "), "a b");
    assert_eq!(trimmed("\t\nx\r "), "x");
    assert_eq!(trimmed("plain"), "plain");
    assert_eq!(trimmed("   "), "");
    assert_eq!(trimmed(""), "");
}
