use terminal_trx::msys::is_msys_pty_name;

fn chars(s: &str) -> Vec<char> {
    s.chars().collect()
}

#[test]
fn msys_pty_pipe_is_recognised() {
    assert!(is_msys_pty_name(&chars("\\msys-dd50a72ab4668b33-pty0-to-master")));
    assert!(is_msys_pty_name(&chars("\\cygwin-e022582115c10879-pty4-from-master")));
}

#[test]
fn other_pipes_are_not_msys_ptys() {
    assert!(!is_msys_pty_name(&chars("\\msys-dd50a72ab4668b33-pipe")));
    assert!(!is_msys_pty_name(&chars("\\Device\\NamedPipe\\-pty")));
    assert!(!is_msys_pty_name(&chars("")));
    assert!(!is_msys_pty_name(&chars("msys")));
    assert!(!is_msys_pty_name(&chars("-pt")));
}

#[test]
fn markers_may_overlap_or_stand_at_the_edges() {
    assert!(is_msys_pty_name(&chars("msys-pty")));
    assert!(is_msys_pty_name(&chars("-ptycygwin-")));
}
