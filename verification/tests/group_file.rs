use entanglo::group_file::{group_contains_member, input_access_guidance, InputAccessGuidance};

#[test]
fn finds_member_in_target_group() {
    let etc_group = "sudo:x:27:alice\ninput:x:996:pasura,bob\naudio:x:29:pasura\n";
    assert!(group_contains_member(etc_group, "input", "pasura"));
    assert!(group_contains_member(etc_group, "input", "bob"));
}

#[test]
fn does_not_find_member_of_a_different_group() {
    let etc_group = "sudo:x:27:alice\ninput:x:996:bob\naudio:x:29:pasura\n";
    assert!(!group_contains_member(etc_group, "input", "pasura"));
}

#[test]
fn missing_group_line_is_not_a_match() {
    let etc_group = "sudo:x:27:alice\naudio:x:29:pasura\n";
    assert!(!group_contains_member(etc_group, "input", "pasura"));
}

#[test]
fn empty_member_list_is_not_a_match() {
    let etc_group = "input:x:996:\n";
    assert!(!group_contains_member(etc_group, "input", "pasura"));
}

#[test]
fn crlf_lines_and_missing_final_newline() {
    assert!(group_contains_member("input:x:996:pasura\r\naudio:x:29:\r\n", "input", "pasura"));
    assert!(group_contains_member("audio:x:29:\ninput:x:996:bob,pasura", "input", "pasura"));
    assert!(!group_contains_member("input:x:996:pasura2", "input", "pasura"));
    assert!(!group_contains_member("", "input", "pasura"));
}

#[test]
fn first_matching_line_decides() {
    let etc_group = "input:x:996:bob\ninput:x:997:pasura\n";
    assert!(!group_contains_member(etc_group, "input", "pasura"));
}

#[test]
fn short_lines_have_no_members() {
    assert!(!group_contains_member("input:x\n", "input", "pasura"));
    assert!(group_contains_member("input\n", "input", ""));
}

#[test]
fn guidance_for_each_state() {
    assert_eq!(input_access_guidance(true, true, false), InputAccessGuidance::Ready);
    assert_eq!(input_access_guidance(true, false, true), InputAccessGuidance::Ready);
    assert_eq!(input_access_guidance(true, false, false), InputAccessGuidance::Relogin);
    assert_eq!(input_access_guidance(false, true, true), InputAccessGuidance::JoinGroup);
}
