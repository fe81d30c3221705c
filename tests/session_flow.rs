use net_route::error::ErrorKind;
use net_route::input::SelectionReply;
use net_route::route::{IpAddress, RouteTable, make_host_route};
use net_route::session::{Action, Phase, Session};

fn v4(a: u8, b: u8, c: u8, d: u8) -> IpAddress {
    IpAddress::V4(a, b, c, d)
}

#[test]
fn remove_one_of_two_matches() {
    let d = v4(10, 0, 0, 1);
    let via3 = make_host_route(d, 3, v4(192, 168, 1, 1));
    let via5 = make_host_route(d, 5, v4(192, 168, 1, 1));
    let table = RouteTable::new(vec![via3, via5]);
    let mut s = Session::remove_route(&table, &d, &32);
    assert_eq!(s.next_action(), Action::Select(2));
    s.on_selection(SelectionReply::Chosen(1));
    assert_eq!(s.next_action(), Action::Confirm);
    s.on_confirmation("y");
    assert_eq!(s.next_action(), Action::Remove(via5));
    s.on_removed(Ok(()));
    assert_eq!(s.phase, Phase::Done);
    assert_eq!(s.next_action(), Action::Stop);
    assert!(s.result().is_ok());
}

#[test]
fn remove_without_match_is_noop() {
    let table = RouteTable::new(vec![make_host_route(v4(1, 2, 3, 4), 3, v4(192, 168, 1, 1))]);
    let s = Session::remove_route(&table, &v4(10, 0, 0, 1), &32);
    assert_eq!(s.phase, Phase::Done);
    assert_eq!(s.next_action(), Action::Stop);
    assert!(s.result().is_ok());
}

#[test]
fn single_match_skips_selection() {
    let d = v4(10, 0, 0, 1);
    let r = make_host_route(d, 3, v4(192, 168, 1, 1));
    let table = RouteTable::new(vec![r]);
    let s = Session::remove_route(&table, &d, &32);
    assert_eq!(s.next_action(), Action::Confirm);
    assert_eq!(s.removals, vec![r]);
}

#[test]
fn out_of_range_selection_fails() {
    let d = v4(10, 0, 0, 1);
    let table = RouteTable::new(vec![
        make_host_route(d, 3, v4(192, 168, 1, 1)),
        make_host_route(d, 5, v4(192, 168, 1, 1)),
    ]);
    let mut s = Session::remove_route(&table, &d, &32);
    s.on_selection(SelectionReply::Chosen(2));
    assert_eq!(s.phase, Phase::Failed(ErrorKind::InvalidSelection));
    assert_eq!(s.next_action(), Action::Stop);
    assert_eq!(s.result().unwrap_err().kind, ErrorKind::InvalidSelection);
}

#[test]
fn invalid_selection_asks_again_and_n_cancels() {
    let d = v4(10, 0, 0, 1);
    let table = RouteTable::new(vec![
        make_host_route(d, 3, v4(192, 168, 1, 1)),
        make_host_route(d, 5, v4(192, 168, 1, 1)),
    ]);
    let mut s = Session::remove_route(&table, &d, &32);
    s.on_selection(SelectionReply::Invalid);
    assert_eq!(s.phase, Phase::Selecting);
    s.on_selection(SelectionReply::Cancelled);
    assert_eq!(s.phase, Phase::Failed(ErrorKind::UserCancelled));
}

#[test]
fn refused_confirmation_cancels_without_mutation() {
    let d = v4(10, 0, 0, 1);
    let table = RouteTable::new(vec![make_host_route(d, 3, v4(192, 168, 1, 1))]);
    for answer in ["n", "", "yess", "ok", "no"] {
        let mut s = Session::remove_route(&table, &d, &32);
        s.on_confirmation(answer);
        assert_eq!(s.phase, Phase::Failed(ErrorKind::UserCancelled));
        assert_eq!(s.next_action(), Action::Stop);
    }
    for answer in ["Y", " yes\n", "YeS"] {
        let mut s = Session::remove_route(&table, &d, &32);
        s.on_confirmation(answer);
        assert_eq!(s.phase, Phase::Removing(0));
    }
}

#[test]
fn unreadable_confirmation_fails() {
    let d = v4(10, 0, 0, 1);
    let table = RouteTable::new(vec![make_host_route(d, 3, v4(192, 168, 1, 1))]);
    let mut s = Session::remove_route(&table, &d, &32);
    s.on_input_error();
    assert_eq!(s.result().unwrap_err().kind, ErrorKind::InputReadError);
}

#[test]
fn domain_removal_stops_at_first_rejection() {
    let a = make_host_route(v4(1, 1, 1, 1), 3, v4(192, 168, 1, 1));
    let b = make_host_route(v4(2, 2, 2, 2), 3, v4(192, 168, 1, 1));
    let c = make_host_route(v4(3, 3, 3, 3), 3, v4(192, 168, 1, 1));
    let table = RouteTable::new(vec![a, b, c]);
    let mut s = Session::remove_domain_route(&table, vec![v4(1, 1, 1, 1), v4(3, 3, 3, 3)], &None);
    assert_eq!(s.removals, vec![a, c]);
    s.on_confirmation("yes");
    assert_eq!(s.next_action(), Action::Remove(a));
    s.on_removed(Err("denied".to_string()));
    let err = s.result().unwrap_err();
    assert_eq!(err.kind, ErrorKind::RouteRemoveRejected);
    assert_eq!(err.message, "denied");
    assert_eq!(s.next_action(), Action::Stop);
}

#[test]
fn duplicate_addition_is_refused() {
    let r = make_host_route(v4(8, 8, 8, 8), 4, v4(192, 168, 1, 1));
    let mut s = Session::add_routes(vec![r]);
    assert_eq!(s.next_action(), Action::Check(r));
    let existing = make_host_route(v4(8, 8, 8, 8), 4, v4(10, 0, 0, 1));
    s.on_table(&RouteTable::new(vec![existing]));
    assert_eq!(s.phase, Phase::Failed(ErrorKind::RouteAlreadyExists));
    assert_eq!(s.existing, vec![existing]);
    assert_eq!(s.next_action(), Action::Stop);
}

#[test]
fn addition_on_other_interface_goes_ahead() {
    let r = make_host_route(v4(8, 8, 8, 8), 4, v4(192, 168, 1, 1));
    let mut s = Session::add_routes(vec![r]);
    s.on_table(&RouteTable::new(vec![make_host_route(v4(8, 8, 8, 8), 7, v4(10, 0, 0, 1))]));
    assert_eq!(s.next_action(), Action::Add(r));
    s.on_added(Ok(()));
    assert_eq!(s.phase, Phase::Done);
}

#[test]
fn rejected_addition_fails() {
    let r = make_host_route(v4(8, 8, 8, 8), 4, v4(192, 168, 1, 1));
    let mut s = Session::add_routes(vec![r, r]);
    s.on_table(&RouteTable::new(vec![]));
    s.on_added(Err("access denied".to_string()));
    assert_eq!(s.result().unwrap_err().kind, ErrorKind::RouteAddRejected);
}

#[test]
fn apply_removes_conflicts_then_adds() {
    let old = make_host_route(v4(93, 184, 216, 34), 7, v4(10, 0, 0, 1));
    let new = make_host_route(v4(93, 184, 216, 34), 2, v4(192, 168, 1, 1));
    let mut s = Session::apply_config(vec![old], vec![new], false, false);
    assert_eq!(s.next_action(), Action::Confirm);
    s.on_confirmation("y");
    assert_eq!(s.next_action(), Action::Remove(old));
    s.on_removed(Ok(()));
    assert_eq!(s.phase, Phase::ConfirmingAdditions);
    s.on_confirmation("Yes");
    assert_eq!(s.next_action(), Action::Add(new));
    s.on_added(Ok(()));
    assert_eq!(s.phase, Phase::Done);
}

#[test]
fn apply_with_cancel_stops_after_conflicts() {
    let old = make_host_route(v4(93, 184, 216, 34), 7, v4(10, 0, 0, 1));
    let new = make_host_route(v4(93, 184, 216, 34), 2, v4(192, 168, 1, 1));
    let mut s = Session::apply_config(vec![old], vec![new], true, true);
    assert_eq!(s.next_action(), Action::Remove(old));
    s.on_removed(Ok(()));
    assert_eq!(s.phase, Phase::Done);
    let s = Session::apply_config(vec![], vec![new], true, true);
    assert_eq!(s.phase, Phase::Done);
}

#[test]
fn apply_without_conflicts_confirms_additions() {
    let new = make_host_route(v4(93, 184, 216, 34), 2, v4(192, 168, 1, 1));
    let mut s = Session::apply_config(vec![], vec![new], false, false);
    assert_eq!(s.phase, Phase::ConfirmingAdditions);
    s.on_confirmation("nope");
    assert_eq!(s.result().unwrap_err().kind, ErrorKind::UserCancelled);
    let s = Session::apply_config(vec![], vec![new], true, false);
    assert_eq!(s.next_action(), Action::Add(new));
}
