use portman::detect::{detect_port, scan_port};
use portman::outcome::LifecycleError;

#[test]
fn localhost_pattern_detected() {
    let content = b"  VITE v5  ready\n  Local: http://localhost:4173/\n";
    assert_eq!(scan_port(content), Some(4173));
}

#[test]
fn port_assignment_detected() {
    assert_eq!(scan_port(b"PORT=8080\nexec node server.js\n"), Some(8080));
}

#[test]
fn lowercase_assignment_with_spaces_detected() {
    assert_eq!(scan_port(b"export port = 3000"), Some(3000));
}

#[test]
fn assignment_with_tabs_and_newline_detected() {
    assert_eq!(scan_port(b"PORT\t=\n9000 rest"), Some(9000));
}

#[test]
fn neither_pattern_yields_none() {
    assert_eq!(scan_port(b"nothing to see here: 1234"), None);
}

#[test]
fn empty_content_yields_none() {
    assert_eq!(scan_port(b""), None);
}

#[test]
fn localhost_wins_over_earlier_assignment() {
    assert_eq!(scan_port(b"PORT=1111 then http://localhost:2222"), Some(2222));
}

#[test]
fn first_localhost_occurrence_wins() {
    assert_eq!(scan_port(b"localhost:5173 and localhost:4000"), Some(5173));
}

#[test]
fn localhost_without_digits_is_skipped() {
    assert_eq!(scan_port(b"localhost:x then localhost:5173"), Some(5173));
}

#[test]
fn oversized_localhost_port_falls_through_to_assignment() {
    assert_eq!(scan_port(b"localhost:99999 but PORT=8080"), Some(8080));
}

#[test]
fn oversized_ports_everywhere_yield_none() {
    assert_eq!(scan_port(b"localhost:70000 PORT=65536"), None);
}

#[test]
fn largest_port_is_accepted() {
    assert_eq!(scan_port(b"localhost:65535"), Some(65535));
}

#[test]
fn one_past_largest_port_is_rejected() {
    assert_eq!(scan_port(b"localhost:65536"), None);
}

#[test]
fn leading_zeros_are_part_of_the_run() {
    assert_eq!(scan_port(b"PORT=0080"), Some(80));
}

#[test]
fn assignment_without_equals_is_no_match() {
    assert_eq!(scan_port(b"PORTS 9999"), None);
}

#[test]
fn detect_port_with_content_scans_it() {
    assert_eq!(detect_port(Some(b"localhost:3000")), Ok(Some(3000)));
}

#[test]
fn detect_port_with_portless_content_is_ok_none() {
    assert_eq!(detect_port(Some(b"hello")), Ok(None));
}

#[test]
fn detect_port_without_content_is_io_failure() {
    assert_eq!(detect_port(None), Err(LifecycleError::IoFailure));
}
