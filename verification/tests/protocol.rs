use iftch2d::protocol::{check_trace, step, Cmd};

#[test]
fn empty_trace_is_idle() {
    let t: Vec<Cmd> = vec![];
    assert_eq!(check_trace(&t), Some(false));
}

#[test]
fn complete_frame_trace_is_legal_and_idle() {
    let t = vec![Cmd::BeginPass, Cmd::Draw, Cmd::EndPass];
    assert_eq!(check_trace(&t), Some(false));
}

#[test]
fn draw_while_idle_is_rejected() {
    let t = vec![Cmd::Draw];
    assert_eq!(check_trace(&t), None);
    let t = vec![Cmd::BeginPass, Cmd::EndPass, Cmd::Draw];
    assert_eq!(check_trace(&t), None);
}

#[test]
fn passes_do_not_nest() {
    let t = vec![Cmd::BeginPass, Cmd::BeginPass];
    assert_eq!(check_trace(&t), None);
}

#[test]
fn end_without_open_pass_is_rejected() {
    let t = vec![Cmd::EndPass];
    assert_eq!(check_trace(&t), None);
}

#[test]
fn open_pass_trace_ends_in_pass() {
    let t = vec![Cmd::BeginPass, Cmd::Draw];
    assert_eq!(check_trace(&t), Some(true));
}

#[test]
fn draws_between_begin_and_end_accepted() {
    let t = vec![
        Cmd::BeginPass,
        Cmd::Draw,
        Cmd::Draw,
        Cmd::EndPass,
        Cmd::BeginPass,
        Cmd::Draw,
        Cmd::EndPass,
    ];
    assert_eq!(check_trace(&t), Some(false));
}

#[test]
fn transitions_match_the_protocol() {
    assert_eq!(step(false, Cmd::BeginPass), Some(true));
    assert_eq!(step(true, Cmd::BeginPass), None);
    assert_eq!(step(false, Cmd::Draw), None);
    assert_eq!(step(true, Cmd::Draw), Some(true));
    assert_eq!(step(true, Cmd::EndPass), Some(false));
    assert_eq!(step(false, Cmd::EndPass), None);
}
