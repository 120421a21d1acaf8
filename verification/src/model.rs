//! A power-supply class as a host would present it, and what the operations
//! of this crate come to when they are driven against it.
//!
//! The operations are small machines, and a machine is easier to trust when
//! its effect is also said at once. This module says it: `set_result` and
//! `get_result` give the result of a whole operation on a class, and the
//! theorems show that the machines come to exactly that, that the order of
//! the writes is the one the kernel needs, and that the daemon outlives what
//! it should outlive.

use crate::daemon::{Daemon, DaemonPhase};
use crate::decimal::{decimal, lemma_decimal_parses, parse_percentage};
use crate::error::{ChargeError, IoFailure};
use crate::protocol::{Answer, Node, Operation, Request};
use crate::sysfs::{
    battery_present, node_of, open_error, reading, reworded, unwritten_error, write_plan,
    GetPhase, GetThresholds, SetPhase, SetThresholds, WriteOrder,
};
use vstd::prelude::*;

verus! {

/// A file of the class: what it holds, and what stands in the way of reading
/// it, of opening it for writing, and of writing to it once it is open.
pub struct FileModel {
    pub contents: Seq<u8>,
    pub read_failure: Option<IoFailure>,
    pub write_failure: Option<IoFailure>,
    pub rejection: Option<IoFailure>,
}

/// The nodes that exist. For a directory only its presence counts.
pub struct PowerSupply {
    pub nodes: Map<Node, FileModel>,
}

impl PowerSupply {
    /// The node exists.
    pub open spec fn present(self, node: Node) -> bool {
        self.nodes.dom().contains(node)
    }

    /// The node exists and can be read.
    pub open spec fn readable(self, node: Node) -> bool {
        self.present(node) && self.nodes[node].read_failure is None
    }

    /// The node exists, can be opened for writing, and takes what is
    /// written.
    pub open spec fn writable(self, node: Node) -> bool {
        &&& self.present(node)
        &&& self.nodes[node].write_failure is None
        &&& self.nodes[node].rejection is None
    }

    /// What stands in the way of a write to the node, if anything does.
    pub open spec fn refusal(self, node: Node) -> Option<IoFailure> {
        if !self.present(node) {
            Some(IoFailure::NotFound)
        } else if self.nodes[node].write_failure is Some {
            self.nodes[node].write_failure
        } else {
            self.nodes[node].rejection
        }
    }

    /// The percentage that the file holds, if it holds one.
    pub open spec fn stored(self, node: Node) -> Option<u8> {
        parse_percentage(self.nodes[node].contents)
    }

    /// What the host answers. A file that is missing cannot be read or
    /// opened; on this host no stop signal ever comes.
    pub open spec fn answer(self, request: Request) -> Answer {
        match request {
            Request::Exists(node) => Answer::Exists(self.present(node)),
            Request::Read(node) => if !self.present(node) {
                Answer::Failed(IoFailure::NotFound)
            } else {
                match self.nodes[node].read_failure {
                    Some(failure) => Answer::Failed(failure),
                    None => Answer::Contents(self.nodes[node].contents),
                }
            },
            Request::Write(node, _) => if !self.present(node) {
                Answer::Failed(IoFailure::NotFound)
            } else {
                match self.nodes[node].write_failure {
                    Some(failure) => Answer::Failed(failure),
                    None => match self.nodes[node].rejection {
                        Some(failure) => Answer::Unwritten(failure),
                        None => Answer::Written,
                    },
                }
            },
            Request::Listen => Answer::Listening,
            Request::Wait(_) => Answer::Elapsed,
        }
    }

    /// The class after the request: a write that succeeds replaces the
    /// contents of its file by the decimal digits of the value; nothing else
    /// changes anything.
    pub open spec fn after(self, request: Request) -> PowerSupply {
        match request {
            Request::Write(node, value) => if self.writable(node) {
                PowerSupply {
                    nodes: self.nodes.insert(
                        node,
                        FileModel { contents: decimal(value as nat), ..self.nodes[node] },
                    ),
                }
            } else {
                self
            },
            _ => self,
        }
    }
}

/// Where driving an operation has led: the operation, the class, and the
/// requests that were made, in order.
pub struct Run<O> {
    pub op: O,
    pub host: PowerSupply,
    pub asked: Seq<Request>,
}

/// Drives `op` against `host` for `steps` requests at most.
pub open spec fn run<O: Operation>(op: O, host: PowerSupply, steps: nat) -> Run<O>
    decreases steps,
{
    match op.pending() {
        Some(request) if steps > 0 => {
            let rest = run(op.next(host.answer(request)), host.after(request), (steps - 1) as nat);
            Run { asked: seq![request] + rest.asked, ..rest }
        },
        _ => Run { op, host, asked: Seq::empty() },
    }
}

/// An operation with nothing pending, or with no step left, is not driven
/// any further.
proof fn lemma_run_over<O: Operation>(op: O, host: PowerSupply, steps: nat)
    requires
        op.pending() is None || steps == 0,
    ensures
        run(op, host, steps) == (Run { op, host, asked: Seq::empty() }),
{
}

/// Driving an operation makes its pending request and goes on from there.
proof fn lemma_run_step<O: Operation>(op: O, host: PowerSupply, steps: nat)
    requires
        op.pending() is Some,
        steps > 0,
    ensures
        ({
            let request = op.pending()->0;
            let rest = run(op.next(host.answer(request)), host.after(request), (steps - 1) as nat);
            run(op, host, steps) == (Run { asked: seq![request] + rest.asked, ..rest })
        }),
{
}

/// What making the writes of `plan` in order comes to for `op`: the error of
/// the first write that fails, in the words of the operation's order and with
/// the class as the writes before it left it, or success with all of them
/// made.
pub open spec fn writes_result(op: SetThresholds, plan: Seq<Request>, host: PowerSupply) -> (
    Result<(), ChargeError>,
    PowerSupply,
)
    decreases plan.len(),
{
    if plan.len() == 0 {
        (Ok(()), host)
    } else {
        match host.answer(plan[0]) {
            Answer::Failed(failure) => (
                Err(open_error(op.order, node_of(Some(plan[0])), op.battery, failure)),
                host,
            ),
            Answer::Unwritten(failure) => (Err(unwritten_error(op.order, failure)), host),
            _ => writes_result(op, plan.subrange(1, plan.len() as int), host.after(plan[0])),
        }
    }
}

/// What reading `node` comes to on `host`.
pub open spec fn read_result(host: PowerSupply, node: Node) -> Result<u8, ChargeError> {
    match host.answer(Request::Read(node)) {
        Answer::Contents(bytes) => reading(Ok(bytes)),
        Answer::Failed(failure) => reading(Err(failure)),
        _ => Err(ChargeError::MalformedKernelValue),
    }
}

/// What storing a pair comes to on `host`, said at once: the result, and the
/// class that is left.
///
/// Unless the operation writes under every name, a missing class directory
/// gives `Unsupported` and a missing battery directory `BatteryNotFound`
/// ("not present" in the words of the operation that writes start first).
/// Where the order goes by the stored stop threshold, that is read next, and
/// a failure to read it or to find a percentage in it is the result. Then
/// the writes of the plan are made.
pub open spec fn set_result(op: SetThresholds, host: PowerSupply) -> (
    Result<(), ChargeError>,
    PowerSupply,
) {
    if op.order == WriteOrder::EveryName {
        writes_result(op, write_plan(op.order, op.thresholds, 0), host)
    } else if !host.present(Node::ClassRoot) {
        (Err(ChargeError::Unsupported), host)
    } else if !host.present(Node::Battery) {
        (Err(reworded(op.order, ChargeError::BatteryNotFound(op.battery))), host)
    } else if op.order == WriteOrder::StartFirst {
        writes_result(op, write_plan(op.order, op.thresholds, 0), host)
    } else {
        match read_result(host, Node::StopThreshold) {
            Ok(stored_stop) => writes_result(
                op,
                write_plan(op.order, op.thresholds, stored_stop),
                host,
            ),
            Err(error) => (Err(error), host),
        }
    }
}

/// What reading the stored pair comes to on `host`, said at once: a missing
/// class directory gives `Unsupported`, a missing battery directory
/// `BatteryNotFound`; then the start threshold is read, then the stop
/// threshold, and the first that fails gives the result. The pair itself is
/// not held to any rule.
pub open spec fn get_result(op: GetThresholds, host: PowerSupply) -> Result<(u8, u8), ChargeError> {
    if !host.present(Node::ClassRoot) {
        Err(ChargeError::Unsupported)
    } else if !host.present(Node::Battery) {
        Err(ChargeError::BatteryNotFound(op.battery))
    } else {
        match read_result(host, Node::StartThreshold) {
            Err(error) => Err(error),
            Ok(start) => match read_result(host, Node::StopThreshold) {
                Err(error) => Err(error),
                Ok(stop) => Ok((start, stop)),
            },
        }
    }
}

/// Requests enough to see any operation on thresholds through: two checks,
/// a read, and two writes at most, or four writes.
pub open spec fn enough() -> nat {
    5
}

/// What the writes come to depends on the operation's order and battery
/// alone.
proof fn lemma_writes_result_of(
    one: SetThresholds,
    other: SetThresholds,
    plan: Seq<Request>,
    host: PowerSupply,
)
    requires
        one.order == other.order,
        one.battery == other.battery,
    ensures
        writes_result(one, plan, host) == writes_result(other, plan, host),
    decreases plan.len(),
{
    if plan.len() > 0 {
        lemma_writes_result_of(
            one,
            other,
            plan.subrange(1, plan.len() as int),
            host.after(plan[0]),
        );
    }
}

/// An operation that is writing, driven to the end of its plan, comes to what
/// the writes that are left come to.
proof fn lemma_run_writes(op: SetThresholds, host: PowerSupply, steps: nat)
    requires
        op.phase is Writing,
        op.wf(),
        steps >= write_plan(op.order, op.thresholds, op.phase->stored_stop).len()
            - op.phase->done,
    ensures
        ({
            let plan = write_plan(op.order, op.thresholds, op.phase->stored_stop);
            let left = plan.subrange(op.phase->done as int, plan.len() as int);
            let end = run(op, host, steps);
            &&& end.op == op.at(SetPhase::Finished(writes_result(op, left, host).0))
            &&& end.host == writes_result(op, left, host).1
        }),
    decreases steps,
{
    let plan = write_plan(op.order, op.thresholds, op.phase->stored_stop);
    let done = op.phase->done;
    let left = plan.subrange(done as int, plan.len() as int);
    let request = plan[done as int];
    assert(left[0] == request);
    assert(op.pending() == Some(request));
    assert(request is Write);
    let after = op.next(host.answer(request));
    lemma_run_step(op, host, steps);
    let shorter = left.subrange(1, left.len() as int);
    if host.answer(request) is Failed || host.answer(request) is Unwritten {
        lemma_run_over(after, host.after(request), (steps - 1) as nat);
    } else {
        assert(writes_result(op, left, host) == writes_result(
            op,
            shorter,
            host.after(request),
        ));
        assert(writes_result(after, shorter, host.after(request)) == writes_result(
            op,
            shorter,
            host.after(request),
        )) by {
            lemma_writes_result_of(op, after, shorter, host.after(request));
        }
        if done + 1 < plan.len() {
            lemma_run_writes(after, host.after(request), (steps - 1) as nat);
            assert(shorter =~= plan.subrange(done + 1, plan.len() as int));
        } else {
            assert(shorter =~= Seq::<Request>::empty());
            lemma_run_over(after, host.after(request), (steps - 1) as nat);
        }
    }
}

/// Driven against any host, a fresh operation that stores a pair is over
/// within `enough()` requests, and its result and the class it leaves are
/// those of `set_result`.
pub proof fn theorem_set_result(op: SetThresholds, host: PowerSupply, steps: nat)
    requires
        op.fresh(),
        steps >= enough(),
    ensures
        run(op, host, steps).op == op.at(SetPhase::Finished(set_result(op, host).0)),
        run(op, host, steps).host == set_result(op, host).1,
{
    if op.order == WriteOrder::EveryName {
        lemma_run_writes(op, host, steps);
        let plan = write_plan(op.order, op.thresholds, 0);
        assert(plan.subrange(0, plan.len() as int) =~= plan);
    } else {
        lemma_run_step(op, host, steps);
        let at_battery = op.next(host.answer(Request::Exists(Node::ClassRoot)));
        if !host.present(Node::ClassRoot) {
            lemma_run_over(at_battery, host, (steps - 1) as nat);
        } else {
            lemma_run_step(at_battery, host, (steps - 1) as nat);
            let resolved = at_battery.next(host.answer(Request::Exists(Node::Battery)));
            if !host.present(Node::Battery) {
                lemma_run_over(resolved, host, (steps - 2) as nat);
            } else if op.order == WriteOrder::StartFirst {
                lemma_run_writes(resolved, host, (steps - 2) as nat);
                let plan = write_plan(op.order, op.thresholds, 0);
                assert(plan.subrange(0, plan.len() as int) =~= plan);
                lemma_writes_result_of(op, resolved, plan, host);
            } else {
                lemma_run_step(resolved, host, (steps - 2) as nat);
                let informed = resolved.next(host.answer(Request::Read(Node::StopThreshold)));
                if informed.phase is Writing {
                    lemma_run_writes(informed, host, (steps - 3) as nat);
                    let plan = write_plan(op.order, op.thresholds, informed.phase->stored_stop);
                    assert(plan.subrange(0, plan.len() as int) =~= plan);
                    lemma_writes_result_of(op, informed, plan, host);
                } else {
                    lemma_run_over(informed, host, (steps - 3) as nat);
                }
            }
        }
    }
}

/// Driven far enough against whatever host, `op` ends with the result of
/// `set_result` and leaves the class that `set_result` gives.
pub open spec fn comes_to_set_result(op: SetThresholds) -> bool {
    forall|host: PowerSupply, steps: nat|
        steps >= enough() ==> {
            &&& (#[trigger] run(op, host, steps)).op.outcome() == Some(set_result(op, host).0)
            &&& run(op, host, steps).host == set_result(op, host).1
        }
}

/// Every fresh operation that stores a pair comes to `set_result`.
pub proof fn theorem_comes_to_set_result(op: SetThresholds)
    requires
        op.fresh(),
    ensures
        comes_to_set_result(op),
{
    assert forall|host: PowerSupply, steps: nat| steps >= enough() implies {
        &&& (#[trigger] run(op, host, steps)).op.outcome() == Some(set_result(op, host).0)
        &&& run(op, host, steps).host == set_result(op, host).1
    } by {
        theorem_set_result(op, host, steps);
    }
}

/// Driven against any host, `get_thresholds` is over within `enough()`
/// requests, its result is that of `get_result`, and the class is as it was.
pub proof fn theorem_get_result(op: GetThresholds, host: PowerSupply, steps: nat)
    requires
        op.phase == GetPhase::Platform,
        steps >= enough(),
    ensures
        run(op, host, steps).op == op.at(GetPhase::Finished(get_result(op, host))),
        run(op, host, steps).host == host,
{
    lemma_run_step(op, host, steps);
    let at_battery = op.next(host.answer(Request::Exists(Node::ClassRoot)));
    if at_battery.pending() is None {
        lemma_run_over(at_battery, host, (steps - 1) as nat);
    } else {
        lemma_run_step(at_battery, host, (steps - 1) as nat);
        let resolved = at_battery.next(host.answer(Request::Exists(Node::Battery)));
        if resolved.pending() is None {
            lemma_run_over(resolved, host, (steps - 2) as nat);
        } else {
            lemma_run_step(resolved, host, (steps - 2) as nat);
            let halfway = resolved.next(host.answer(Request::Read(Node::StartThreshold)));
            if halfway.pending() is None {
                lemma_run_over(halfway, host, (steps - 3) as nat);
            } else {
                lemma_run_step(halfway, host, (steps - 3) as nat);
                let last = halfway.next(host.answer(Request::Read(Node::StopThreshold)));
                lemma_run_over(last, host, (steps - 4) as nat);
            }
        }
    }
}

/// Driven far enough against whatever host, `op` ends with the result of
/// `get_result` and leaves the class as it found it.
pub open spec fn comes_to_get_result(op: GetThresholds) -> bool {
    forall|host: PowerSupply, steps: nat|
        steps >= enough() ==> {
            &&& (#[trigger] run(op, host, steps)).op.outcome() == Some(get_result(op, host))
            &&& run(op, host, steps).host == host
        }
}

/// Every fresh operation that reads the stored pair comes to `get_result`.
pub proof fn theorem_comes_to_get_result(op: GetThresholds)
    requires
        op.phase == GetPhase::Platform,
    ensures
        comes_to_get_result(op),
{
    assert forall|host: PowerSupply, steps: nat| steps >= enough() implies {
        &&& (#[trigger] run(op, host, steps)).op.outcome() == Some(get_result(op, host))
        &&& run(op, host, steps).host == host
    } by {
        theorem_get_result(op, host, steps);
    }
}

/// The order of the two writes. Where the class, the battery and a stored
/// stop threshold of `stored_stop` are there for `set_thresholds`, it asks
/// for those three and then writes: the stop threshold first if the new start
/// is not below the stored stop, the start threshold first otherwise. The
/// second write is asked for exactly where the first went through.
pub proof fn theorem_write_order(
    op: SetThresholds,
    host: PowerSupply,
    stored_stop: u8,
    steps: nat,
)
    requires
        op.fresh(),
        op.order == WriteOrder::ByStoredStop,
        host.present(Node::ClassRoot),
        host.present(Node::Battery),
        host.readable(Node::StopThreshold),
        host.stored(Node::StopThreshold) == Some(stored_stop),
        steps >= enough(),
    ensures
        ({
            let asked = run(op, host, steps).asked;
            let stop_first = op.thresholds.start >= stored_stop;
            let first = if stop_first {
                Node::StopThreshold
            } else {
                Node::StartThreshold
            };
            let start = Request::Write(Node::StartThreshold, op.thresholds.start);
            let stop = Request::Write(Node::StopThreshold, op.thresholds.stop);
            &&& asked.len() == (if host.writable(first) {
                5nat
            } else {
                4nat
            })
            &&& asked[0] == Request::Exists(Node::ClassRoot)
            &&& asked[1] == Request::Exists(Node::Battery)
            &&& asked[2] == Request::Read(Node::StopThreshold)
            &&& asked[3] == (if stop_first {
                stop
            } else {
                start
            })
            &&& asked.len() == 5 ==> asked[4] == (if stop_first {
                start
            } else {
                stop
            })
        }),
{
    lemma_run_step(op, host, steps);
    let at_battery = op.next(host.answer(Request::Exists(Node::ClassRoot)));
    lemma_run_step(at_battery, host, (steps - 1) as nat);
    let resolved = at_battery.next(host.answer(Request::Exists(Node::Battery)));
    lemma_run_step(resolved, host, (steps - 2) as nat);
    let informed = resolved.next(host.answer(Request::Read(Node::StopThreshold)));
    let plan = write_plan(op.order, op.thresholds, stored_stop);
    lemma_run_step(informed, host, (steps - 3) as nat);
    let written = informed.next(host.answer(plan[0]));
    if host.answer(plan[0]) is Failed || host.answer(plan[0]) is Unwritten {
        lemma_run_over(written, host.after(plan[0]), (steps - 4) as nat);
    } else {
        lemma_run_step(written, host.after(plan[0]), (steps - 4) as nat);
        let last = written.next(host.after(plan[0]).answer(plan[1]));
        lemma_run_over(last, host.after(plan[0]).after(plan[1]), (steps - 5) as nat);
    }
}

/// The class holds all that `set_thresholds` needs: the class directory, the
/// battery, a stop threshold that can be read and holds a percentage, and
/// two threshold files that can be written.
pub open spec fn ready_to_set(host: PowerSupply) -> bool {
    &&& host.present(Node::ClassRoot)
    &&& host.present(Node::Battery)
    &&& host.readable(Node::StopThreshold)
    &&& host.stored(Node::StopThreshold) is Some
    &&& host.writable(Node::StartThreshold)
    &&& host.writable(Node::StopThreshold)
}

/// `set_thresholds` succeeds exactly on a class that holds all it needs, and
/// then the two files hold the decimal digits of the new pair and nothing
/// else has changed.
pub proof fn theorem_set_thresholds_succeeds(op: SetThresholds, host: PowerSupply, steps: nat)
    requires
        op.fresh(),
        op.order == WriteOrder::ByStoredStop,
        steps >= enough(),
    ensures
        run(op, host, steps).op.outcome() is Some,
        run(op, host, steps).op.outcome() == Some(Ok::<(), ChargeError>(())) <==> ready_to_set(
            host,
        ),
        ready_to_set(host) ==> ({
            let after = run(op, host, steps).host;
            &&& after.nodes.dom() == host.nodes.dom()
            &&& after.nodes[Node::StartThreshold] == (FileModel {
                contents: decimal(op.thresholds.start as nat),
                ..host.nodes[Node::StartThreshold]
            })
            &&& after.nodes[Node::StopThreshold] == (FileModel {
                contents: decimal(op.thresholds.stop as nat),
                ..host.nodes[Node::StopThreshold]
            })
            &&& forall|node: Node|
                node != Node::StartThreshold && node != Node::StopThreshold
                    ==> after.nodes[node] == host.nodes[node]
        }),
{
    theorem_set_result(op, host, steps);
    if host.present(Node::ClassRoot) && host.present(Node::Battery) && host.readable(
        Node::StopThreshold,
    ) && host.stored(Node::StopThreshold) is Some {
        let stored_stop = host.stored(Node::StopThreshold)->0;
        let plan = write_plan(op.order, op.thresholds, stored_stop);
        reveal_with_fuel(writes_result, 3);
        assert(plan.subrange(1, 2)[0] == plan[1]);
        assert(plan.subrange(1, 2).subrange(1, 1).len() == 0);
        if ready_to_set(host) {
            assert(run(op, host, steps).host.nodes.dom() =~= host.nodes.dom());
        }
    }
}

/// Storing the same pair twice is storing it once: if `set_thresholds`
/// succeeds, the files hold the pair, a second run on what the first left
/// succeeds too, and it leaves the class as it found it.
pub proof fn theorem_set_thresholds_idempotent(op: SetThresholds, host: PowerSupply, steps: nat)
    requires
        op.fresh(),
        op.order == WriteOrder::ByStoredStop,
        steps >= enough(),
        run(op, host, steps).op.outcome() == Some(Ok::<(), ChargeError>(())),
    ensures
        ({
            let once = run(op, host, steps);
            let twice = run(op, once.host, steps);
            &&& once.host.stored(Node::StartThreshold) == Some(op.thresholds.start)
            &&& once.host.stored(Node::StopThreshold) == Some(op.thresholds.stop)
            &&& twice.op.outcome() == Some(Ok::<(), ChargeError>(()))
            &&& twice.host == once.host
        }),
{
    let once = run(op, host, steps);
    theorem_set_thresholds_succeeds(op, host, steps);
    lemma_decimal_parses(op.thresholds.start);
    lemma_decimal_parses(op.thresholds.stop);
    assert(ready_to_set(once.host));
    theorem_set_thresholds_succeeds(op, once.host, steps);
    let twice = run(op, once.host, steps);
    assert(twice.host.nodes =~= once.host.nodes);
}

/// Both threshold files hold a percentage, and start is below stop.
pub open spec fn stored_in_order(host: PowerSupply) -> bool {
    &&& host.stored(Node::StartThreshold) is Some
    &&& host.stored(Node::StopThreshold) is Some
    &&& host.stored(Node::StartThreshold)->0 < host.stored(Node::StopThreshold)->0
}

/// The kernel never sees a start threshold that is not below the stop
/// threshold: where the stored pair is in order before `set_thresholds`, it
/// is in order after every request, however far the operation gets.
pub proof fn theorem_thresholds_stay_ordered(op: SetThresholds, host: PowerSupply, steps: nat)
    requires
        op.fresh(),
        op.order == WriteOrder::ByStoredStop,
        stored_in_order(host),
    ensures
        stored_in_order(run(op, host, steps).host),
{
    lemma_decimal_parses(op.thresholds.start);
    lemma_decimal_parses(op.thresholds.stop);
    lemma_run_over(op, host, 0);
    if steps >= 1 {
        lemma_run_step(op, host, steps);
        let at_battery = op.next(host.answer(Request::Exists(Node::ClassRoot)));
        if at_battery.pending() is None || steps == 1 {
            lemma_run_over(at_battery, host, (steps - 1) as nat);
        } else {
            lemma_run_step(at_battery, host, (steps - 1) as nat);
            let resolved = at_battery.next(host.answer(Request::Exists(Node::Battery)));
            if resolved.pending() is None || steps == 2 {
                lemma_run_over(resolved, host, (steps - 2) as nat);
            } else {
                lemma_run_step(resolved, host, (steps - 2) as nat);
                let informed = resolved.next(host.answer(Request::Read(Node::StopThreshold)));
                if informed.pending() is None || steps == 3 {
                    lemma_run_over(informed, host, (steps - 3) as nat);
                } else {
                    let first = informed.pending()->0;
                    lemma_run_step(informed, host, (steps - 3) as nat);
                    let written = informed.next(host.answer(first));
                    let between = host.after(first);
                    assert(stored_in_order(between));
                    if written.pending() is None || steps == 4 {
                        lemma_run_over(written, between, (steps - 4) as nat);
                    } else {
                        let second = written.pending()->0;
                        lemma_run_step(written, between, (steps - 4) as nat);
                        let last = written.next(between.answer(second));
                        lemma_run_over(last, between.after(second), (steps - 5) as nat);
                        assert(stored_in_order(between.after(second)));
                    }
                }
            }
        }
    }
}

/// What was set is what is got: after `set_thresholds` has succeeded,
/// `get_thresholds` on the class it left gives the same pair, provided the
/// start threshold can be read.
pub proof fn theorem_get_after_set(
    set: SetThresholds,
    get: GetThresholds,
    host: PowerSupply,
    steps: nat,
)
    requires
        set.fresh(),
        set.order == WriteOrder::ByStoredStop,
        get.phase == GetPhase::Platform,
        steps >= enough(),
        run(set, host, steps).op.outcome() == Some(Ok::<(), ChargeError>(())),
        host.readable(Node::StartThreshold),
    ensures
        run(get, run(set, host, steps).host, steps).op.outcome() == Some(
            Ok::<(u8, u8), ChargeError>((set.thresholds.start, set.thresholds.stop)),
        ),
{
    theorem_set_thresholds_succeeds(set, host, steps);
    lemma_decimal_parses(set.thresholds.start);
    lemma_decimal_parses(set.thresholds.stop);
    theorem_get_result(get, run(set, host, steps).host, steps);
}

/// What the daemon's three opening requests come to: `Unsupported` without
/// the class directory, `BatteryNotFound` without the battery; with both it
/// listens for the stop signal and enters its loop. Nothing is written.
pub proof fn theorem_daemon_initialization(daemon: Daemon, host: PowerSupply)
    requires
        daemon.phase == DaemonPhase::Platform,
    ensures
        run(daemon, host, 3).host == host,
        run(daemon, host, 3).op == daemon.at(
            if !host.present(Node::ClassRoot) {
                DaemonPhase::Terminated(Err(ChargeError::Unsupported))
            } else if !host.present(Node::Battery) {
                DaemonPhase::Terminated(Err(ChargeError::BatteryNotFound(daemon.battery)))
            } else {
                DaemonPhase::Waiting
            },
        ),
{
    lemma_run_step(daemon, host, 3);
    let at_battery = daemon.next(host.answer(Request::Exists(Node::ClassRoot)));
    if at_battery.pending() is None {
        lemma_run_over(at_battery, host, 2);
    } else {
        lemma_run_step(at_battery, host, 2);
        let resolved = at_battery.next(host.answer(Request::Exists(Node::Battery)));
        if resolved.pending() is None {
            lemma_run_over(resolved, host, 1);
        } else {
            lemma_run_step(resolved, host, 1);
            lemma_run_over(resolved.next(Answer::Listening), host, 0);
        }
    }
}

/// Mains power is connected, as far as the adapter's flag tells.
pub open spec fn mains_online(host: PowerSupply) -> bool {
    &&& host.readable(Node::AcOnline)
    &&& host.stored(Node::AcOnline) is Some
    &&& host.stored(Node::AcOnline)->0 != 0
}

/// One round on mains power stores the pair again: from waiting, the daemon
/// waits, reads the adapter's flag, writes start, writes stop, and is back
/// at waiting with both files holding the digits of its pair.
pub proof fn theorem_daemon_round_stores_pair(daemon: Daemon, host: PowerSupply)
    requires
        daemon.phase == DaemonPhase::Waiting,
        mains_online(host),
        host.writable(Node::StartThreshold),
        host.writable(Node::StopThreshold),
    ensures
        ({
            let round = run(daemon, host, 4);
            &&& round.op == daemon
            &&& round.asked == seq![
                daemon.pending()->0,
                Request::Read(Node::AcOnline),
                Request::Write(Node::StartThreshold, daemon.thresholds.start),
                Request::Write(Node::StopThreshold, daemon.thresholds.stop),
            ]
            &&& round.host.nodes[Node::StartThreshold].contents == decimal(
                daemon.thresholds.start as nat,
            )
            &&& round.host.nodes[Node::StopThreshold].contents == decimal(
                daemon.thresholds.stop as nat,
            )
        }),
{
    let wait = daemon.pending()->0;
    let read = Request::Read(Node::AcOnline);
    let first = Request::Write(Node::StartThreshold, daemon.thresholds.start);
    let second = Request::Write(Node::StopThreshold, daemon.thresholds.stop);
    lemma_run_step(daemon, host, 4);
    let checking = daemon.next(host.answer(wait));
    lemma_run_step(checking, host, 3);
    let writing = checking.next(host.answer(read));
    lemma_run_step(writing, host, 2);
    let halfway = writing.next(host.answer(first));
    lemma_run_step(halfway, host.after(first), 1);
    let back = halfway.next(host.after(first).answer(second));
    lemma_run_over(back, host.after(first).after(second), 0);
    assert(run(daemon, host, 4).asked =~= seq![wait, read, first, second]);
}

/// The daemon lives through a missing or unreadable adapter flag: however
/// long it is driven on such a host, it stays in its loop, between waiting
/// and asking for the flag, and writes nothing.
pub proof fn theorem_daemon_survives_unreadable_power(
    daemon: Daemon,
    host: PowerSupply,
    steps: nat,
)
    requires
        daemon.phase == DaemonPhase::Waiting || daemon.phase == DaemonPhase::Power,
        !host.readable(Node::AcOnline),
    ensures
        ({
            let end = run(daemon, host, steps);
            &&& end.op.phase == DaemonPhase::Waiting || end.op.phase == DaemonPhase::Power
            &&& end.op.outcome() is None
            &&& end.host == host
            &&& forall|i: int| 0 <= i < end.asked.len() ==> !(#[trigger] end.asked[i] is Write)
        }),
    decreases steps,
{
    if steps == 0 {
        lemma_run_over(daemon, host, 0);
    } else {
        lemma_run_step(daemon, host, steps);
        let request = daemon.pending()->0;
        theorem_daemon_survives_unreadable_power(
            daemon.next(host.answer(request)),
            host,
            (steps - 1) as nat,
        );
    }
}

/// The daemon does not outlive a threshold file that cannot be written: on
/// mains power, the round that meets the failure is its last, and what stood
/// in the way of the write is its result.
pub proof fn theorem_daemon_ends_on_failed_write(daemon: Daemon, host: PowerSupply)
    requires
        daemon.phase == DaemonPhase::Waiting,
        mains_online(host),
        !host.writable(Node::StartThreshold) || !host.writable(Node::StopThreshold),
    ensures
        ({
            let end = run(daemon, host, 4);
            let refusal = if host.writable(Node::StartThreshold) {
                host.refusal(Node::StopThreshold)
            } else {
                host.refusal(Node::StartThreshold)
            };
            &&& refusal is Some
            &&& end.op.outcome() == Some(Err::<(), ChargeError>(ChargeError::Io(refusal->0)))
        }),
{
    let wait = daemon.pending()->0;
    let read = Request::Read(Node::AcOnline);
    let first = Request::Write(Node::StartThreshold, daemon.thresholds.start);
    let second = Request::Write(Node::StopThreshold, daemon.thresholds.stop);
    lemma_run_step(daemon, host, 4);
    let checking = daemon.next(host.answer(wait));
    lemma_run_step(checking, host, 3);
    let writing = checking.next(host.answer(read));
    lemma_run_step(writing, host, 2);
    let halfway = writing.next(host.answer(first));
    if host.writable(Node::StartThreshold) {
        lemma_run_step(halfway, host.after(first), 1);
        let back = halfway.next(host.after(first).answer(second));
        lemma_run_over(back, host.after(first).after(second), 0);
    } else {
        lemma_run_over(halfway, host.after(first), 1);
    }
}

} // verus!
