use vstd::prelude::*;
use crate::error::{ErrorKind, NetRouteError};
use crate::input::{approves, is_approval, SelectionReply};
use crate::route::{IpAddress, Route, RouteTable, search_any_spec, search_spec};

verus! {

/// Where a mutating operation stands.
#[derive(Clone, Copy, Debug, PartialEq, Eq, Structural)]
pub enum Phase {
    /// Waiting for the operator to pick one of several matching routes.
    Selecting,
    /// Waiting for approval to delete the routes in `removals`.
    ConfirmingRemovals,
    /// Deleting `removals[i]`.
    Removing(usize),
    /// Waiting for approval to add the routes in `additions`.
    ConfirmingAdditions,
    /// Waiting for a fresh table to check `additions[i]` for duplicates.
    Checking(usize),
    /// Adding `additions[i]`.
    Adding(usize),
    /// Finished successfully.
    Done,
    /// Stopped by the error of this kind; nothing further is done.
    Failed(ErrorKind),
}

/// What the caller is to do next for a session.
#[derive(Clone, Copy, Debug, PartialEq, Eq, Structural)]
pub enum Action {
    /// Ask the operator for a number in `[0, n]`, `n` the number of candidates.
    Select(usize),
    /// Ask the operator for a yes/no confirmation.
    Confirm,
    /// Delete this route from the system table.
    Remove(Route),
    /// Read the system table afresh and hand it to `on_table`.
    Check(Route),
    /// Add this route to the system table.
    Add(Route),
    /// Nothing: the session is over.
    Stop,
}

/// The decisions of a mutating operation (remove, apply a configuration,
/// add), from its first read of the table to its last mutation. The caller
/// performs each action and reports the outcome back; the session never
/// touches the system itself. Mutations run in order and the first failure
/// ends the session, with nothing undone.
#[derive(Debug)]
pub struct Session {
    /// The matches among which the operator picks one.
    pub candidates: Vec<Route>,
    /// The routes to delete, in order.
    pub removals: Vec<Route>,
    /// The routes to add, in order.
    pub additions: Vec<Route>,
    /// The routes already present that made an addition fail.
    pub existing: Vec<Route>,
    pub confirm_removals: bool,
    pub confirm_additions: bool,
    /// End successfully once the removals are done.
    pub stop_after_removals: bool,
    /// Check each addition against a fresh table before adding it.
    pub check_duplicates: bool,
    pub phase: Phase,
    /// The message of the failure, when the phase is `Failed`.
    pub message: String,
}

/// The phase that begins the addition of `n_additions` routes, each checked
/// for a duplicate first where `check` holds.
pub open spec fn start_additions_spec(n_additions: nat, check: bool) -> Phase {
    if n_additions == 0 {
        Phase::Done
    } else if check {
        Phase::Checking(0)
    } else {
        Phase::Adding(0)
    }
}

impl Session {
    pub open spec fn wf(self) -> bool {
        match self.phase {
            Phase::Selecting => self.candidates@.len() > 1,
            Phase::ConfirmingRemovals => self.removals@.len() > 0,
            Phase::Removing(i) => i < self.removals@.len(),
            Phase::Checking(i) => i < self.additions@.len(),
            Phase::Adding(i) => i < self.additions@.len(),
            _ => true,
        }
    }

    /// The session is over: no action follows.
    pub open spec fn is_over(self) -> bool {
        self.phase is Done || self.phase is Failed
    }

    /// The phase once every removal is done.
    pub open spec fn after_removals(self) -> Phase {
        if self.stop_after_removals {
            Phase::Done
        } else if self.confirm_additions {
            Phase::ConfirmingAdditions
        } else {
            start_additions_spec(self.additions@.len(), self.check_duplicates)
        }
    }

    /// The phase that begins the removal of `n` routes.
    pub open spec fn start_removals(self, n: nat) -> Phase {
        if n == 0 {
            self.after_removals()
        } else if self.confirm_removals {
            Phase::ConfirmingRemovals
        } else {
            Phase::Removing(0)
        }
    }

    pub open spec fn action_spec(self) -> Action {
        match self.phase {
            Phase::Selecting => Action::Select(self.candidates@.len() as usize),
            Phase::ConfirmingRemovals => Action::Confirm,
            Phase::ConfirmingAdditions => Action::Confirm,
            Phase::Removing(i) => Action::Remove(self.removals@[i as int]),
            Phase::Checking(i) => Action::Check(self.additions@[i as int]),
            Phase::Adding(i) => Action::Add(self.additions@[i as int]),
            _ => Action::Stop,
        }
    }

    /// The phase after the operator answered a numeric choice.
    pub open spec fn selection_phase(self, reply: SelectionReply) -> Phase {
        match reply {
            SelectionReply::Chosen(i) => if i < self.candidates@.len() {
                self.start_removals(1)
            } else {
                Phase::Failed(ErrorKind::InvalidSelection)
            },
            SelectionReply::Cancelled => Phase::Failed(ErrorKind::UserCancelled),
            SelectionReply::Invalid => self.phase,
        }
    }

    /// The phase after a confirmation that approved or not.
    pub open spec fn confirmation_phase(self, approved: bool) -> Phase {
        if !approved {
            Phase::Failed(ErrorKind::UserCancelled)
        } else if self.phase is ConfirmingRemovals {
            Phase::Removing(0)
        } else {
            start_additions_spec(self.additions@.len(), self.check_duplicates)
        }
    }

    /// The phase after the deletion in progress succeeded or was rejected.
    pub open spec fn removed_phase(self, ok: bool) -> Phase {
        let i = self.phase->Removing_0;
        if !ok {
            Phase::Failed(ErrorKind::RouteRemoveRejected)
        } else if i + 1 < self.removals@.len() {
            Phase::Removing((i + 1) as usize)
        } else {
            self.after_removals()
        }
    }

    /// The routes of `table` that duplicate the addition being checked: same
    /// destination, prefix and interface.
    pub open spec fn duplicates_spec(self, table: Seq<Route>) -> Seq<Route> {
        let r = self.additions@[self.phase->Checking_0 as int];
        search_spec(table, r.destination, r.prefix, r.ifindex, None)
    }

    /// The phase after checking the addition in progress against `table`.
    pub open spec fn table_phase(self, table: Seq<Route>) -> Phase {
        if self.duplicates_spec(table).len() > 0 {
            Phase::Failed(ErrorKind::RouteAlreadyExists)
        } else {
            Phase::Adding(self.phase->Checking_0)
        }
    }

    /// The phase after the addition in progress succeeded or was rejected.
    pub open spec fn added_phase(self, ok: bool) -> Phase {
        let i = self.phase->Adding_0;
        if !ok {
            Phase::Failed(ErrorKind::RouteAddRejected)
        } else if i + 1 < self.additions@.len() {
            if self.check_duplicates {
                Phase::Checking((i + 1) as usize)
            } else {
                Phase::Adding((i + 1) as usize)
            }
        } else {
            Phase::Done
        }
    }

    /// The phase that a removal of the routes `matches` begins with: nothing
    /// to do for none, a confirmation for one, a choice for several.
    pub open spec fn remove_route_phase(matches: Seq<Route>) -> Phase {
        if matches.len() == 0 {
            Phase::Done
        } else if matches.len() == 1 {
            Phase::ConfirmingRemovals
        } else {
            Phase::Selecting
        }
    }

    /// Fields other than the phase and the message are as in `other`.
    pub open spec fn same_plan(self, other: Session) -> bool {
        &&& self.candidates@ == other.candidates@
        &&& self.removals@ == other.removals@
        &&& self.additions@ == other.additions@
        &&& self.existing@ == other.existing@
        &&& self.confirm_removals == other.confirm_removals
        &&& self.confirm_additions == other.confirm_additions
        &&& self.stop_after_removals == other.stop_after_removals
        &&& self.check_duplicates == other.check_duplicates
    }

    fn empty(phase: Phase) -> (r: Session)
        ensures
            r.candidates@.len() == 0,
            r.removals@.len() == 0,
            r.additions@.len() == 0,
            r.existing@.len() == 0,
            r.phase == phase,
            !r.confirm_removals,
            !r.confirm_additions,
            !r.stop_after_removals,
            !r.check_duplicates,
    {
        Session {
            candidates: Vec::new(),
            removals: Vec::new(),
            additions: Vec::new(),
            existing: Vec::new(),
            confirm_removals: false,
            confirm_additions: false,
            stop_after_removals: false,
            check_duplicates: false,
            phase,
            message: String::new(),
        }
    }

    /// Removal of the route to `dest/prefix`: nothing to do where the table
    /// holds none, a confirmation where it holds one, and first a choice
    /// where it holds several.
    pub fn remove_route(table: &RouteTable, dest: &IpAddress, prefix: &u8) -> (r: Session)
        ensures
            r.wf(),
            r.phase == Session::remove_route_phase(
                search_spec(table.routes@, *dest, *prefix, None, None),
            ),
            r.phase is ConfirmingRemovals ==> r.removals@ == search_spec(
                table.routes@,
                *dest,
                *prefix,
                None,
                None,
            ),
            r.phase is Selecting ==> r.candidates@ == search_spec(
                table.routes@,
                *dest,
                *prefix,
                None,
                None,
            ),
            r.confirm_removals,
            r.stop_after_removals,
            r.additions@.len() == 0,
    {
        let matches = table.search_route_by_ip(dest, prefix, None, None);
        let mut s = Session::empty(Phase::Done);
        s.confirm_removals = true;
        s.stop_after_removals = true;
        if matches.len() == 1 {
            s.removals = matches;
            s.phase = Phase::ConfirmingRemovals;
        } else if matches.len() > 1 {
            s.candidates = matches;
            s.phase = Phase::Selecting;
        }
        s
    }

    /// Removal of every host route to one of `addrs`, narrowed to an
    /// interface where one is given, after one confirmation for all.
    pub fn remove_domain_route(table: &RouteTable, addrs: Vec<IpAddress>, if_index: &Option<u32>) -> (r:
        Session)
        ensures
            r.wf(),
            r.removals@ == search_any_spec(table.routes@, addrs@, 32, *if_index, None),
            r.phase == (if r.removals@.len() == 0 {
                Phase::Done
            } else {
                Phase::ConfirmingRemovals
            }),
            r.stop_after_removals,
            r.additions@.len() == 0,
    {
        let matches = table.search_route_by_ip_vec(addrs, &32, if_index, None);
        let mut s = Session::empty(Phase::Done);
        s.confirm_removals = true;
        s.stop_after_removals = true;
        if matches.len() > 0 {
            s.phase = Phase::ConfirmingRemovals;
        }
        s.removals = matches;
        s
    }

    /// Application of a reconciled configuration: delete the conflicts,
    /// then, unless `cancel`, add the candidates; each batch behind a
    /// confirmation unless `no_confirm`.
    pub fn apply_config(conflicts: Vec<Route>, candidates: Vec<Route>, no_confirm: bool, cancel: bool) -> (r:
        Session)
        ensures
            r.wf(),
            r.removals@ == conflicts@,
            r.additions@ == candidates@,
            r.confirm_removals == !no_confirm,
            r.confirm_additions == !no_confirm,
            r.stop_after_removals == cancel,
            !r.check_duplicates,
            r.phase == r.start_removals(conflicts@.len()),
    {
        let mut s = Session::empty(Phase::Done);
        s.confirm_removals = !no_confirm;
        s.confirm_additions = !no_confirm;
        s.stop_after_removals = cancel;
        let n_removals = conflicts.len();
        let n_additions = candidates.len();
        s.removals = conflicts;
        s.additions = candidates;
        s.phase = if n_removals > 0 {
            if no_confirm {
                Phase::Removing(0)
            } else {
                Phase::ConfirmingRemovals
            }
        } else if cancel {
            Phase::Done
        } else if !no_confirm {
            Phase::ConfirmingAdditions
        } else if n_additions == 0 {
            Phase::Done
        } else {
            Phase::Adding(0)
        };
        s
    }

    /// Addition of `routes` in order, each checked first against a fresh
    /// table for a route to the same destination, prefix and interface.
    pub fn add_routes(routes: Vec<Route>) -> (r: Session)
        ensures
            r.wf(),
            r.additions@ == routes@,
            r.check_duplicates,
            r.removals@.len() == 0,
            r.phase == start_additions_spec(routes@.len(), true),
    {
        let mut s = Session::empty(Phase::Done);
        s.check_duplicates = true;
        if routes.len() > 0 {
            s.phase = Phase::Checking(0);
        }
        s.additions = routes;
        s
    }

    /// What the caller is to do next.
    pub fn next_action(&self) -> (a: Action)
        requires
            self.wf(),
        ensures
            a == self.action_spec(),
    {
        match self.phase {
            Phase::Selecting => Action::Select(self.candidates.len()),
            Phase::ConfirmingRemovals => Action::Confirm,
            Phase::ConfirmingAdditions => Action::Confirm,
            Phase::Removing(i) => Action::Remove(self.removals[i]),
            Phase::Checking(i) => Action::Check(self.additions[i]),
            Phase::Adding(i) => Action::Add(self.additions[i]),
            _ => Action::Stop,
        }
    }

    fn after_removals_exec(&self) -> (p: Phase)
        ensures
            p == self.after_removals(),
    {
        if self.stop_after_removals {
            Phase::Done
        } else if self.confirm_additions {
            Phase::ConfirmingAdditions
        } else if self.additions.len() == 0 {
            Phase::Done
        } else if self.check_duplicates {
            Phase::Checking(0)
        } else {
            Phase::Adding(0)
        }
    }

    fn fail_with(&mut self, kind: ErrorKind, message: String)
        ensures
            final(self).phase == Phase::Failed(kind),
            final(self).message@ == message@,
            final(self).same_plan(*old(self)),
    {
        self.phase = Phase::Failed(kind);
        self.message = message;
    }

    /// The operator answered the choice among the candidates.
    pub fn on_selection(&mut self, reply: SelectionReply)
        requires
            old(self).wf(),
            old(self).phase is Selecting,
        ensures
            final(self).wf(),
            final(self).phase == old(self).selection_phase(reply),
            match reply {
                SelectionReply::Chosen(i) => i < old(self).candidates@.len()
                    ==> final(self).removals@ == seq![old(self).candidates@[i as int]],
                _ => final(self).removals@ == old(self).removals@,
            },
            final(self).candidates@ == old(self).candidates@,
            final(self).additions@ == old(self).additions@,
            final(self).confirm_removals == old(self).confirm_removals,
            final(self).confirm_additions == old(self).confirm_additions,
            final(self).stop_after_removals == old(self).stop_after_removals,
            final(self).check_duplicates == old(self).check_duplicates,
    {
        match reply {
            SelectionReply::Chosen(i) => {
                if i < self.candidates.len() {
                    let chosen = self.candidates[i];
                    let mut removals: Vec<Route> = Vec::new();
                    removals.push(chosen);
                    self.removals = removals;
                    self.phase = if self.confirm_removals {
                        Phase::ConfirmingRemovals
                    } else {
                        Phase::Removing(0)
                    };
                } else {
                    self.fail_with(
                        ErrorKind::InvalidSelection,
                        String::from_str("路由表中没有找到匹配的路由"),
                    );
                }
            },
            SelectionReply::Cancelled => {
                self.fail_with(ErrorKind::UserCancelled, String::from_str("用户取消操作"));
            },
            SelectionReply::Invalid => {},
        }
    }

    /// The operator answered the confirmation with `input`.
    pub fn on_confirmation(&mut self, input: &str)
        requires
            old(self).wf(),
            old(self).phase is ConfirmingRemovals || old(self).phase is ConfirmingAdditions,
        ensures
            final(self).wf(),
            final(self).phase == old(self).confirmation_phase(approves(input@)),
            final(self).same_plan(*old(self)),
    {
        if !is_approval(input) {
            self.fail_with(ErrorKind::UserCancelled, String::from_str("用户取消操作"));
        } else if self.phase == Phase::ConfirmingRemovals {
            self.phase = Phase::Removing(0);
        } else if self.additions.len() == 0 {
            self.phase = Phase::Done;
        } else if self.check_duplicates {
            self.phase = Phase::Checking(0);
        } else {
            self.phase = Phase::Adding(0);
        }
    }

    /// The answer to a confirmation could not be read.
    pub fn on_input_error(&mut self)
        requires
            old(self).phase is ConfirmingRemovals || old(self).phase is ConfirmingAdditions,
        ensures
            final(self).wf(),
            final(self).phase == Phase::Failed(ErrorKind::InputReadError),
            final(self).same_plan(*old(self)),
    {
        self.fail_with(ErrorKind::InputReadError, String::from_str("读取输入失败"));
    }

    /// The deletion in progress succeeded (`Ok`) or the system rejected it.
    pub fn on_removed(&mut self, result: Result<(), String>)
        requires
            old(self).wf(),
            old(self).phase is Removing,
        ensures
            final(self).wf(),
            final(self).phase == old(self).removed_phase(result is Ok),
            final(self).same_plan(*old(self)),
            result is Err ==> final(self).message@ == result->Err_0@,
    {
        let i = match self.phase {
            Phase::Removing(i) => i,
            _ => 0,
        };
        match result {
            Ok(()) => {
                if i < self.removals.len() - 1 {
                    self.phase = Phase::Removing(i + 1);
                } else {
                    self.phase = self.after_removals_exec();
                }
            },
            Err(message) => {
                self.fail_with(ErrorKind::RouteRemoveRejected, message);
            },
        }
    }

    /// A fresh read of the table, to check the addition in progress for a
    /// duplicate; duplicates end the session and are kept in `existing`.
    pub fn on_table(&mut self, table: &RouteTable)
        requires
            old(self).wf(),
            old(self).phase is Checking,
        ensures
            final(self).wf(),
            final(self).phase == old(self).table_phase(table.routes@),
            final(self).phase is Failed ==> final(self).existing@ == old(self).duplicates_spec(
                table.routes@,
            ),
            final(self).candidates@ == old(self).candidates@,
            final(self).removals@ == old(self).removals@,
            final(self).additions@ == old(self).additions@,
            final(self).check_duplicates == old(self).check_duplicates,
    {
        let i = match self.phase {
            Phase::Checking(i) => i,
            _ => 0,
        };
        let r = self.additions[i];
        let dups = table.search_route_by_ip(&r.destination, &r.prefix, r.ifindex.as_ref(), None);
        if dups.len() > 0 {
            self.existing = dups;
            self.fail_with(ErrorKind::RouteAlreadyExists, String::from_str("路由已存在"));
        } else {
            self.phase = Phase::Adding(i);
        }
    }

    /// The addition in progress succeeded (`Ok`) or the system rejected it.
    pub fn on_added(&mut self, result: Result<(), String>)
        requires
            old(self).wf(),
            old(self).phase is Adding,
        ensures
            final(self).wf(),
            final(self).phase == old(self).added_phase(result is Ok),
            final(self).same_plan(*old(self)),
            result is Err ==> final(self).message@ == result->Err_0@,
    {
        let i = match self.phase {
            Phase::Adding(i) => i,
            _ => 0,
        };
        match result {
            Ok(()) => {
                if i < self.additions.len() - 1 {
                    self.phase = if self.check_duplicates {
                        Phase::Checking(i + 1)
                    } else {
                        Phase::Adding(i + 1)
                    };
                } else {
                    self.phase = Phase::Done;
                }
            },
            Err(message) => {
                self.fail_with(ErrorKind::RouteAddRejected, message);
            },
        }
    }

    /// The outcome of a finished session.
    pub fn result(&self) -> (r: Result<(), NetRouteError>)
        requires
            self.is_over(),
        ensures
            r is Ok <==> self.phase is Done,
            r is Err ==> self.phase == Phase::Failed(r->Err_0.kind) && r->Err_0.message@
                == self.message@,
    {
        match self.phase {
            Phase::Failed(kind) => Err(NetRouteError::with_kind(kind, self.message.clone())),
            _ => Ok(()),
        }
    }
}

/// A session that is over asks for nothing more: in particular no route is
/// added or removed after it has failed.
pub proof fn lemma_over_session_stops(s: Session)
    requires
        s.is_over(),
    ensures
        s.action_spec() == Action::Stop,
{
}

/// An addition whose destination, prefix and interface are already in the
/// table fails with `RouteAlreadyExists`, and the session then stops without
/// adding it.
pub proof fn lemma_duplicate_addition_refused(s: Session, table: Seq<Route>)
    requires
        s.wf(),
        s.phase is Checking,
        s.duplicates_spec(table).len() > 0,
    ensures
        s.table_phase(table) == Phase::Failed(ErrorKind::RouteAlreadyExists),
        (Session { phase: s.table_phase(table), ..s }).action_spec() == Action::Stop,
{
}

/// Removing a destination and prefix that no route matches finishes at once,
/// successfully, with no deletion.
pub proof fn lemma_removal_without_match_is_noop(table: Seq<Route>, dest: IpAddress, prefix: u8)
    requires
        search_spec(table, dest, prefix, None, None).len() == 0,
    ensures
        Session::remove_route_phase(search_spec(table, dest, prefix, None, None)) == Phase::Done,
{
}

/// A confirmation answered with anything but `y` or `yes` (in any case)
/// fails the session with `UserCancelled`, after which nothing is mutated.
pub proof fn lemma_refused_confirmation_cancels(s: Session, input: Seq<char>)
    requires
        s.wf(),
        s.phase is ConfirmingRemovals || s.phase is ConfirmingAdditions,
        !approves(input),
    ensures
        s.confirmation_phase(approves(input)) == Phase::Failed(ErrorKind::UserCancelled),
        (Session { phase: s.confirmation_phase(approves(input)), ..s }).action_spec()
            == Action::Stop,
{
}

/// A removal with exactly one match asks no choice and goes to the
/// confirmation; with several it asks for a choice first.
pub proof fn lemma_selection_only_for_several(matches: Seq<Route>)
    requires
        matches.len() > 0,
    ensures
        matches.len() == 1 ==> Session::remove_route_phase(matches) == Phase::ConfirmingRemovals,
        matches.len() > 1 ==> Session::remove_route_phase(matches) == Phase::Selecting,
{
}

/// A choice outside the candidates fails with `InvalidSelection`, and no
/// route is deleted after it.
pub proof fn lemma_out_of_range_selection_fails(s: Session, i: usize)
    requires
        s.wf(),
        s.phase is Selecting,
        i >= s.candidates@.len(),
    ensures
        s.selection_phase(SelectionReply::Chosen(i)) == Phase::Failed(ErrorKind::InvalidSelection),
        (Session { phase: s.selection_phase(SelectionReply::Chosen(i)), ..s }).action_spec()
            == Action::Stop,
{
}

} // verus!
