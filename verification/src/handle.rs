//! The handle of a relay that has announced readiness: how the supervision
//! hands it over, and how the process is stopped.

use crate::conf::Conf;
use crate::error::{errno_code, errno_number, Error, ESRCH};
use crate::gate::{Gate, Phase};
use crate::launch::{config_text_spec, decimal, endpoint, endpoint_spec};
use vstd::prelude::*;

verus! {

/// The largest identity that a process can have.
pub const MAX_PID: u32 = 0x7fff_ffff;

/// Whether a process can have this identity. Zero and the numbers beyond
/// `MAX_PID` name no single process.
pub open spec fn names_a_process(pid: u32) -> bool {
    0 < pid <= MAX_PID
}

/// Whether delivery of the signal leaves nothing more to do: it was
/// delivered, or there is no such process any more.
pub open spec fn signal_settled(sent: Result<(), nix::errno::Errno>) -> bool {
    match sent {
        Ok(_) => true,
        Err(e) => errno_code(e) == ESRCH,
    }
}

/// What taking the oldest of the buffered lines leaves, and gives.
pub open spec fn receive(logs: Seq<String>) -> (Seq<String>, Option<String>) {
    if logs.len() == 0 {
        (logs, None)
    } else {
        (logs.skip(1), Some(logs[0]))
    }
}

/// What the caller is told after the signal was tried.
pub open spec fn signal_outcome(sent: Result<(), nix::errno::Errno>) -> Result<(), Error> {
    match sent {
        Ok(_) => Ok(()),
        Err(e) => if errno_code(e) == ESRCH {
            Ok(())
        } else {
            Err(Error::Nix(e))
        },
    }
}

/// `nix::sys::signal::kill` with `SIGINT`, for the one process whose identity
/// is `pid`. Whether the signal is delivered depends on the system, so nothing
/// is claimed of the result. Identities that are not positive are left out:
/// they would address whole groups of processes.
#[verifier::external_body]
fn send_interrupt(pid: i32) -> (r: Result<(), nix::errno::Errno>)
    requires
        pid > 0,
{
    nix::sys::signal::kill(nix::unistd::Pid::from_raw(pid), nix::sys::signal::SIGINT)
}

/// A running relay with what is known of it.
#[derive(Debug)]
pub struct NostrD {
    /// The identity of the process, used to stop it.
    pub pid: u32,
    /// The working directory of the process.
    pub work_dir: String,
    /// The captured lines of both output streams that were not read yet,
    /// oldest first.
    pub logs: Vec<String>,
    /// The port that the relay listens on.
    pub port: u16,
    /// The address that the relay is bound to.
    pub addr: String,
    /// Path to the executable.
    pub binary: String,
    /// Whether the process was stopped, or found gone. Once set, stopping
    /// again does nothing.
    pub terminated: bool,
}

impl NostrD {
    /// The handle after a stop was asked for and the signal, where one was
    /// owed, gave `sent`; with what the caller is told.
    pub open spec fn killed(self, sent: Result<(), nix::errno::Errno>) -> (NostrD, Result<
        (),
        Error,
    >) {
        if self.signal_target_spec() is None {
            (NostrD { terminated: true, ..self }, Ok(()))
        } else {
            (NostrD { terminated: signal_settled(sent), ..self }, signal_outcome(sent))
        }
    }

    /// Whether this is the fresh handle of the process `pid` that runs
    /// `binary` in `work_dir`, bound as `conf` chooses where the system
    /// offered the port `allocated`: nothing buffered, not stopped.
    pub open spec fn describes(
        self,
        conf: Conf,
        allocated: u16,
        pid: u32,
        work_dir: String,
        binary: String,
    ) -> bool {
        &&& self.pid == pid
        &&& self.work_dir == work_dir
        &&& self.binary == binary
        &&& self.logs@ == Seq::<String>::empty()
        &&& self.addr@ == conf.address_spec()
        &&& self.port == conf.port_spec(allocated)
        &&& !self.terminated
    }

    /// The process that the interrupt is sent to, if one is owed: none for
    /// a handle that is stopped, none for an identity that names no process.
    pub open spec fn signal_target_spec(self) -> Option<i32> {
        if self.terminated || !names_a_process(self.pid) {
            None
        } else {
            Some(self.pid as i32)
        }
    }

    /// Ends the supervision that `gate` has led for `conf`.
    ///
    /// Where the supervision is ready, the last attempt's process is handed
    /// over: it runs as `pid` in `work_dir`, from `binary`, with the address
    /// and port that `conf` chooses where the system offered `allocated`.
    /// Where the supervision is exhausted there is no handle, and the failure
    /// names the attempts that were allowed. While an attempt is under way
    /// there is nothing to give.
    pub fn with_conf(
        conf: &Conf,
        gate: &Gate,
        allocated: u16,
        pid: u32,
        work_dir: String,
        binary: String,
    ) -> (r: Option<Result<NostrD, Error>>)
        ensures
            gate.phase == Phase::Ready ==> (r matches Some(Ok(h)) && h.describes(
                *conf,
                allocated,
                pid,
                work_dir,
                binary,
            )),
            gate.phase == Phase::Exhausted ==> r == Some(
                Err::<NostrD, Error>(Error::SetupExhausted(gate.attempts)),
            ),
            gate.phase == Phase::Spawning || gate.phase == Phase::Polling ==> r is None,
    {
        match gate.verdict() {
            Some(Ok(_)) => Some(
                Ok(
                    NostrD {
                        pid,
                        work_dir,
                        logs: Vec::new(),
                        port: conf.port_or(allocated),
                        addr: conf.address(),
                        binary,
                        terminated: false,
                    },
                ),
            ),
            Some(Err(e)) => Some(Err(e)),
            None => None,
        }
    }

    /// Ends the supervision that `gate` has led for the default
    /// configuration, as `with_conf` does for a given one.
    pub fn new(gate: &Gate, allocated: u16, pid: u32, work_dir: String, binary: String) -> (r:
        Option<Result<NostrD, Error>>)
        ensures
            gate.phase == Phase::Ready ==> (r matches Some(Ok(h)) && h.pid == pid && h.work_dir
                == work_dir && h.binary == binary && h.logs@ == Seq::<String>::empty() && h.addr@
                == crate::conf::loopback() && h.port == allocated && !h.terminated),
            gate.phase == Phase::Exhausted ==> r == Some(
                Err::<NostrD, Error>(Error::SetupExhausted(gate.attempts)),
            ),
            gate.phase == Phase::Spawning || gate.phase == Phase::Polling ==> r is None,
    {
        let conf = Conf::default();
        NostrD::with_conf(&conf, gate, allocated, pid, work_dir, binary)
    }

    /// The process to interrupt, if the handle owes a signal.
    pub fn signal_target(&self) -> (r: Option<i32>)
        ensures
            r == self.signal_target_spec(),
            r matches Some(target) ==> target > 0 && target == self.pid,
    {
        if self.terminated || self.pid == 0 || self.pid > MAX_PID {
            None
        } else {
            Some(self.pid as i32)
        }
    }

    /// The working directory of the running relay.
    pub fn workdir(&self) -> (r: String)
        ensures
            r@ == self.work_dir@,
    {
        self.work_dir.clone()
    }

    /// The connection address of the relay: the scheme, the bound address
    /// and the bound port.
    pub fn url(&self) -> (r: String)
        ensures
            r@ == endpoint_spec(self.addr@, self.port),
    {
        endpoint(self.addr.as_str(), self.port)
    }

    /// Adds a captured line behind those that are buffered.
    pub fn push_log(&mut self, line: String)
        ensures
            final(self).logs@ == old(self).logs@.push(line),
            final(self).pid == old(self).pid,
            final(self).work_dir == old(self).work_dir,
            final(self).port == old(self).port,
            final(self).addr == old(self).addr,
            final(self).binary == old(self).binary,
            final(self).terminated == old(self).terminated,
    {
        self.logs.push(line);
    }

    /// Takes the oldest buffered line, if there is one, without waiting.
    pub fn try_recv(&mut self) -> (r: Option<String>)
        ensures
            (final(self).logs@, r) == receive(old(self).logs@),
            final(self).pid == old(self).pid,
            final(self).work_dir == old(self).work_dir,
            final(self).port == old(self).port,
            final(self).addr == old(self).addr,
            final(self).binary == old(self).binary,
            final(self).terminated == old(self).terminated,
    {
        if self.logs.len() == 0 {
            None
        } else {
            let line = self.logs.remove(0);
            Some(line)
        }
    }

    /// Discards every buffered line, without waiting.
    pub fn clear_logs(&mut self)
        ensures
            final(self).logs@ == Seq::<String>::empty(),
            final(self).pid == old(self).pid,
            final(self).work_dir == old(self).work_dir,
            final(self).port == old(self).port,
            final(self).addr == old(self).addr,
            final(self).binary == old(self).binary,
            final(self).terminated == old(self).terminated,
    {
        self.logs.clear();
    }

    /// Takes note of what sending the interrupt gave.
    ///
    /// A delivered signal settles the stop, and so does the answer that there
    /// is no such process: the process has ended already. Any other refusal is
    /// reported, and the handle stays as it was.
    pub fn settle(&mut self, sent: Result<(), nix::errno::Errno>) -> (r: Result<(), Error>)
        ensures
            r == signal_outcome(sent),
            r is Ok <==> signal_settled(sent),
            *final(self) == (NostrD {
                terminated: old(self).terminated || signal_settled(sent),
                ..*old(self)
            }),
    {
        match sent {
            Ok(_) => {
                self.terminated = true;
                Ok(())
            },
            Err(e) => {
                if errno_number(&e) == ESRCH {
                    self.terminated = true;
                    Ok(())
                } else {
                    Err(Error::Nix(e))
                }
            },
        }
    }

    /// Stops the process with an interrupt, so that the relay can flush its
    /// state.
    ///
    /// Stopping a handle that is stopped already does nothing and succeeds.
    /// So does stopping one whose identity names no process. Otherwise the
    /// interrupt goes to the process that `signal_target` names, and what
    /// follows is what `killed` says of the system's answer. The caller
    /// then waits for the process to exit.
    pub fn kill(&mut self) -> (r: Result<(), Error>)
        ensures
            exists|sent: Result<(), nix::errno::Errno>|
                (*final(self), r) == #[trigger] old(self).killed(sent),
            old(self).signal_target_spec() is None ==> r is Ok,
            old(self).terminated ==> *final(self) == *old(self),
            r is Ok <==> final(self).terminated,
    {
        match self.signal_target() {
            None => {
                self.terminated = true;
                assert((*self, Ok::<(), Error>(())) == old(self).killed(Ok(())));
                Ok(())
            },
            Some(target) => {
                let sent = send_interrupt(target);
                let r = self.settle(sent);
                assert((*self, r) == old(self).killed(sent));
                r
            },
        }
    }

    /// Stops the process when the handle is let go of, and tells whether
    /// the caller is to wait for its exit. A refusal of the system is not
    /// reported, but then there is nothing to wait for. The handle counts
    /// as stopped whatever came of it: letting go a second time, or after
    /// a stop, sends nothing.
    pub fn cleanup(&mut self) -> (waits: bool)
        ensures
            *final(self) == (NostrD { terminated: true, ..*old(self) }),
            exists|sent: Result<(), nix::errno::Errno>|
                waits == (#[trigger] old(self).killed(sent)).1 is Ok,
            old(self).signal_target_spec() is None ==> waits,
    {
        let waits = self.kill().is_ok();
        self.terminated = true;
        waits
    }
}

/// The handle's address is the one that the process was told to bind: the
/// configuration file of the attempt and the handle's address are written
/// from the same address and port.
pub proof fn url_names_configured_endpoint(
    conf: Conf,
    allocated: u16,
    pid: u32,
    work_dir: String,
    binary: String,
    handle: NostrD,
)
    requires
        handle.describes(conf, allocated, pid, work_dir, binary),
    ensures
        endpoint_spec(handle.addr@, handle.port) == "ws://"@ + conf.address_spec() + ":"@
            + decimal(conf.port_spec(allocated) as nat),
        config_text_spec(conf.address_spec(), conf.port_spec(allocated))
            == "[network]\naddress = \""@ + handle.addr@ + "\"\nport = \""@ + decimal(
            handle.port as nat,
        ) + "\"\n"@,
{
}

/// After the buffered lines were discarded, a receive gives no line and
/// leaves the buffer empty.
pub proof fn cleared_holds_no_line(cleared: NostrD)
    requires
        cleared.logs@ == Seq::<String>::empty(),
    ensures
        receive(cleared.logs@) == (cleared.logs@, None::<String>),
{
}

/// Lines are received in the order in which they were captured: a line
/// added behind buffered ones does not overtake them, and a line added to
/// an empty buffer is the next to be received.
pub proof fn lines_keep_their_order(logs: Seq<String>, line: String)
    ensures
        logs.len() > 0 ==> receive(logs.push(line)) == (receive(logs).0.push(line), receive(logs).1),
        logs.len() == 0 ==> receive(logs.push(line)) == (logs, Some(line)),
{
    if logs.len() > 0 {
        assert(logs.push(line).skip(1) =~= logs.skip(1).push(line));
    } else {
        assert(logs.push(line).skip(1) =~= logs);
    }
}

/// Stopping is idempotent: once a stop has succeeded, every further stop
/// succeeds, whatever the system would answer, and changes nothing.
pub proof fn kill_twice_succeeds(
    handle: NostrD,
    first: Result<(), nix::errno::Errno>,
    second: Result<(), nix::errno::Errno>,
)
    requires
        handle.killed(first).1 is Ok,
    ensures
        handle.killed(first).0.terminated,
        handle.killed(first).0.killed(second) == (handle.killed(first).0, Ok::<(), Error>(())),
{
}

/// A process that is already gone counts as stopped: the answer "no such
/// process" is a success, not a failure.
pub proof fn gone_process_counts_as_stopped(handle: NostrD, e: nix::errno::Errno)
    requires
        errno_code(e) == ESRCH,
    ensures
        handle.killed(Err(e)).1 is Ok,
        handle.killed(Err(e)).0.terminated,
{
}

} // verus!
