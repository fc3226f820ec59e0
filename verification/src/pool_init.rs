//! The initialisation of the VM pool, slot by slot, as a state machine.
//!
//! For each slot the worker clones the base image (an image that exists
//! already is reused), starts the VM, waits for it to boot, asks for its
//! address and, where a setup is configured and the address is known, runs
//! the setup once. A setup that fails is only logged. The slot then joins
//! the pool, Ready.

use vstd::prelude::*;
use crate::text::{contains, contains_text, join3, opt_view, trim, trimmed};
use crate::vm_pool::{names_in_order, slot_name, vm_name, PooledVmView, VmPool, VmState};

verus! {

/// Seconds to wait for a VM to boot.
pub const BOOT_WAIT_SECONDS: u64 = 30;

/// Where the initialisation stands.
#[derive(Debug, Clone, Copy, PartialEq, Eq, Structural)]
pub enum InitPhase {
    /// Nothing was done yet.
    Idle,
    /// The image of the current slot is being cloned.
    Cloning,
    /// The VM of the current slot is being started.
    Starting,
    /// The VM of the current slot is booting.
    Booting,
    /// The address of the current slot's VM is being asked for.
    QueryingIp,
    /// The setup is being looked at: is it a script file or a command?
    ProbingSetup,
    /// The setup script is being copied into the VM.
    CopyingSetup,
    /// The setup is running in the VM.
    RunningSetup,
    /// Every slot is in the pool.
    Done,
    /// The initialisation failed.
    Failed,
}

/// What came of the action that the worker performed.
#[derive(Debug)]
pub enum InitEvent {
    /// The initialisation starts.
    Begun,
    /// The command ended; with success or not, and with this output.
    CommandDone { success: bool, stdout: String, stderr: String },
    /// The VM was started.
    Started,
    /// The wait is over.
    Waited,
    /// The setup was looked at: it names a script file, or it does not.
    SetupProbed { is_file: bool },
    /// The action could not be performed.
    IoError { message: String },
}

/// The mathematical value of an [`InitEvent`].
pub ghost enum InitEventView {
    Begun,
    CommandDone { success: bool, stdout: Seq<char>, stderr: Seq<char> },
    Started,
    Waited,
    SetupProbed { is_file: bool },
    IoError { message: Seq<char> },
}

impl View for InitEvent {
    type V = InitEventView;

    open spec fn view(&self) -> InitEventView {
        match self {
            InitEvent::Begun => InitEventView::Begun,
            InitEvent::CommandDone { success, stdout, stderr } => InitEventView::CommandDone {
                success: *success,
                stdout: stdout@,
                stderr: stderr@,
            },
            InitEvent::Started => InitEventView::Started,
            InitEvent::Waited => InitEventView::Waited,
            InitEvent::SetupProbed { is_file } => InitEventView::SetupProbed {
                is_file: *is_file,
            },
            InitEvent::IoError { message } => InitEventView::IoError { message: message@ },
        }
    }
}

/// What the worker is to do next.
#[derive(Debug)]
pub enum InitAction {
    /// Clone the base image under this name.
    Clone { image: String, name: String },
    /// Start the VM of this name, without graphics.
    Start { name: String },
    /// Wait for the VM to boot.
    WaitForBoot { seconds: u64 },
    /// Ask for the address of the VM of this name.
    QueryIp { name: String },
    /// Find out whether the setup names a script file.
    ProbeSetup { path: String },
    /// Copy the setup script to this place in the VM.
    CopySetup { path: String, target: String },
    /// Run this command in the VM at this address.
    RunSetup { ip: String, command: String },
    /// The pool is ready.
    Finish,
    /// Give up with this message.
    Fail { message: String },
    /// Wait for the event of the action that is under way.
    Wait,
}

/// The mathematical value of an [`InitAction`].
pub ghost enum InitActionView {
    Clone { image: Seq<char>, name: Seq<char> },
    Start { name: Seq<char> },
    WaitForBoot { seconds: u64 },
    QueryIp { name: Seq<char> },
    ProbeSetup { path: Seq<char> },
    CopySetup { path: Seq<char>, target: Seq<char> },
    RunSetup { ip: Seq<char>, command: Seq<char> },
    Finish,
    Fail { message: Seq<char> },
    Wait,
}

impl View for InitAction {
    type V = InitActionView;

    open spec fn view(&self) -> InitActionView {
        match self {
            InitAction::Clone { image, name } => InitActionView::Clone {
                image: image@,
                name: name@,
            },
            InitAction::Start { name } => InitActionView::Start { name: name@ },
            InitAction::WaitForBoot { seconds } => InitActionView::WaitForBoot {
                seconds: *seconds,
            },
            InitAction::QueryIp { name } => InitActionView::QueryIp { name: name@ },
            InitAction::ProbeSetup { path } => InitActionView::ProbeSetup { path: path@ },
            InitAction::CopySetup { path, target } => InitActionView::CopySetup {
                path: path@,
                target: target@,
            },
            InitAction::RunSetup { ip, command } => InitActionView::RunSetup {
                ip: ip@,
                command: command@,
            },
            InitAction::Finish => InitActionView::Finish,
            InitAction::Fail { message } => InitActionView::Fail { message: message@ },
            InitAction::Wait => InitActionView::Wait,
        }
    }
}

/// The mathematical value of the initialisation.
pub ghost struct InitView {
    pub pool: Seq<PooledVmView>,
    pub image: Seq<char>,
    pub size: u32,
    pub setup: Option<Seq<char>>,
    pub phase: InitPhase,
    /// The address of the current slot's VM, once it is known.
    pub ip: Seq<char>,
}

impl InitView {
    /// The name of the VM of the current slot.
    pub open spec fn current_name(self) -> Seq<char> {
        slot_name(self.pool.len())
    }

    /// The failure reported for a clone that did not succeed.
    pub open spec fn clone_failure(self, stderr: Seq<char>) -> Seq<char> {
        "Failed to clone VM "@ + self.current_name() + ": "@ + stderr
    }

    /// The step to the next slot, or to the end where the pool is full.
    pub open spec fn begin_slot(self) -> (InitView, InitActionView) {
        if self.pool.len() < self.size {
            (
                InitView { phase: InitPhase::Cloning, ip: Seq::empty(), ..self },
                InitActionView::Clone { image: self.image, name: self.current_name() },
            )
        } else {
            (InitView { phase: InitPhase::Done, ip: Seq::empty(), ..self }, InitActionView::Finish)
        }
    }

    /// The current slot joins the pool, Ready, with the address that was
    /// found; the next slot begins.
    pub open spec fn finish_slot(self) -> (InitView, InitActionView) {
        InitView {
            pool: self.pool.push(
                PooledVmView { name: self.current_name(), ip: self.ip, state: VmState::Ready },
            ),
            ..self
        }.begin_slot()
    }

    /// The initialisation fails with this message.
    pub open spec fn fail(self, message: Seq<char>) -> (InitView, InitActionView) {
        (InitView { phase: InitPhase::Failed, ..self }, InitActionView::Fail { message })
    }

    /// The state and the action that follow an event. An event that the
    /// phase does not wait for changes nothing.
    pub open spec fn next(self, event: InitEventView) -> (InitView, InitActionView) {
        match (self.phase, event) {
            (InitPhase::Done, _) => (self, InitActionView::Finish),
            (InitPhase::Failed, _) => (self, InitActionView::Wait),
            (InitPhase::Idle, InitEventView::Begun) => self.begin_slot(),
            (InitPhase::Idle, _) => (self, InitActionView::Wait),
            (InitPhase::Cloning, InitEventView::IoError { message }) => self.fail(message),
            (InitPhase::Starting, InitEventView::IoError { message }) => self.fail(message),
            (InitPhase::QueryingIp, InitEventView::IoError { message }) => self.fail(message),
            (InitPhase::Cloning, InitEventView::CommandDone { success, stdout, stderr }) => if success
                || contains_text(stderr, "already exists"@) {
                (
                    InitView { phase: InitPhase::Starting, ..self },
                    InitActionView::Start { name: self.current_name() },
                )
            } else {
                self.fail(self.clone_failure(stderr))
            },
            (InitPhase::Starting, InitEventView::Started) => (
                InitView { phase: InitPhase::Booting, ..self },
                InitActionView::WaitForBoot { seconds: 30 },
            ),
            (InitPhase::Booting, InitEventView::Waited) => (
                InitView { phase: InitPhase::QueryingIp, ..self },
                InitActionView::QueryIp { name: self.current_name() },
            ),
            (InitPhase::QueryingIp, InitEventView::CommandDone { success, stdout, stderr }) => {
                let ip = if success {
                    trimmed(stdout)
                } else {
                    Seq::empty()
                };
                let found = InitView { ip, ..self };
                if self.setup is Some && ip.len() > 0 {
                    (
                        InitView { phase: InitPhase::ProbingSetup, ..found },
                        InitActionView::ProbeSetup { path: self.setup->0 },
                    )
                } else {
                    found.finish_slot()
                }
            },
            (InitPhase::ProbingSetup, InitEventView::SetupProbed { is_file }) => if is_file {
                (
                    InitView { phase: InitPhase::CopyingSetup, ..self },
                    InitActionView::CopySetup {
                        path: self.setup->0,
                        target: "admin@"@ + self.ip + ":~/setup.sh"@,
                    },
                )
            } else {
                (
                    InitView { phase: InitPhase::RunningSetup, ..self },
                    InitActionView::RunSetup { ip: self.ip, command: self.setup->0 },
                )
            },
            (InitPhase::CopyingSetup, InitEventView::CommandDone { success, stdout, stderr }) => if success {
                (
                    InitView { phase: InitPhase::RunningSetup, ..self },
                    InitActionView::RunSetup {
                        ip: self.ip,
                        command: "chmod +x ~/setup.sh && ~/setup.sh"@,
                    },
                )
            } else {
                self.finish_slot()
            },
            (InitPhase::CopyingSetup, InitEventView::IoError { message }) => self.finish_slot(),
            (InitPhase::RunningSetup, InitEventView::CommandDone { success, stdout, stderr }) => self.finish_slot(),
            (InitPhase::RunningSetup, InitEventView::IoError { message }) => self.finish_slot(),
            _ => (self, InitActionView::Wait),
        }
    }

    /// The invariant of the initialisation: the slots that joined the pool
    /// are Ready and named in order; slots are missing while the work goes
    /// on and none is missing at the end; a setup is looked at only where
    /// there is one.
    pub open spec fn wf(self) -> bool {
        &&& names_in_order(self.pool)
        &&& forall|i: int| 0 <= i < self.pool.len() ==> (#[trigger] self.pool[i]).state
            == VmState::Ready
        &&& self.pool.len() <= self.size
        &&& self.phase == InitPhase::Done ==> self.pool.len() == self.size
        &&& (self.phase != InitPhase::Done && self.phase != InitPhase::Failed && self.phase
            != InitPhase::Idle) ==> self.pool.len() < self.size
        &&& (self.phase == InitPhase::ProbingSetup || self.phase == InitPhase::CopyingSetup)
            ==> self.setup is Some
    }
}

/// The initialisation of a pool.
pub struct PoolInit {
    pool: VmPool,
    size: u32,
    setup: Option<String>,
    phase: InitPhase,
    ip: String,
}

impl View for PoolInit {
    type V = InitView;

    closed spec fn view(&self) -> InitView {
        InitView {
            pool: self.pool@,
            image: self.pool.image(),
            size: self.size,
            setup: opt_view(self.setup),
            phase: self.phase,
            ip: self.ip@,
        }
    }
}

impl PoolInit {
    /// The invariant of the initialisation.
    pub closed spec fn wf(&self) -> bool {
        &&& self@.wf()
        &&& self.pool.wf()
    }

    /// The initialisation of a pool of `size` VMs cloned from
    /// `base_image`, each set up once with `setup`, a script file or a
    /// command, where one is given.
    pub fn new(size: u32, base_image: &str, setup: Option<String>) -> (init: PoolInit)
        ensures
            init.wf(),
            init@ == (InitView {
                pool: Seq::empty(),
                image: base_image@,
                size,
                setup: opt_view(setup),
                phase: InitPhase::Idle,
                ip: Seq::empty(),
            }),
    {
        PoolInit {
            pool: VmPool::new(base_image),
            size,
            setup,
            phase: InitPhase::Idle,
            ip: String::new(),
        }
    }

    /// Where the initialisation stands.
    pub fn phase(&self) -> (phase: InitPhase)
        ensures
            phase == self@.phase,
    {
        self.phase
    }

    fn begin_slot(&mut self) -> (action: InitAction)
        requires
            old(self).pool.wf(),
            old(self)@.pool.len() <= old(self).size,
        ensures
            (final(self)@, action@) == old(self)@.begin_slot(),
            final(self).pool.wf(),
    {
        self.ip = String::new();
        if self.pool.len() < self.size as usize {
            self.phase = InitPhase::Cloning;
            InitAction::Clone {
                image: String::from_str(self.pool.base_image()),
                name: vm_name(self.pool.len() as u32),
            }
        } else {
            self.phase = InitPhase::Done;
            InitAction::Finish
        }
    }

    fn finish_slot(&mut self) -> (action: InitAction)
        requires
            old(self).pool.wf(),
            old(self)@.pool.len() < old(self).size,
        ensures
            (final(self)@, action@) == old(self)@.finish_slot(),
            final(self).pool.wf(),
    {
        let ip = self.ip.clone();
        self.pool.add_slot(ip);
        self.begin_slot()
    }

    fn fail(&mut self, message: String) -> (action: InitAction)
        ensures
            (final(self)@, action@) == old(self)@.fail(message@),
            final(self).pool == old(self).pool,
    {
        self.phase = InitPhase::Failed;
        InitAction::Fail { message }
    }

    /// Takes the event that came of the last action and says what to do
    /// next.
    pub fn advance(&mut self, event: InitEvent) -> (action: InitAction)
        requires
            old(self).wf(),
        ensures
            final(self).wf(),
            (final(self)@, action@) == old(self)@.next(event@),
    {
        match self.phase {
            InitPhase::Done => InitAction::Finish,
            InitPhase::Failed => InitAction::Wait,
            InitPhase::Idle => match event {
                InitEvent::Begun => self.begin_slot(),
                _ => InitAction::Wait,
            },
            InitPhase::Cloning => match event {
                InitEvent::IoError { message } => self.fail(message),
                InitEvent::CommandDone { success, stdout, stderr } => {
                    if success || contains(stderr.as_str(), "already exists") {
                        self.phase = InitPhase::Starting;
                        InitAction::Start { name: vm_name(self.pool.len() as u32) }
                    } else {
                        let name = vm_name(self.pool.len() as u32);
                        let mut message = join3("Failed to clone VM ", name.as_str(), ": ");
                        message.push_str(stderr.as_str());
                        self.fail(message)
                    }
                },
                _ => InitAction::Wait,
            },
            InitPhase::Starting => match event {
                InitEvent::IoError { message } => self.fail(message),
                InitEvent::Started => {
                    self.phase = InitPhase::Booting;
                    InitAction::WaitForBoot { seconds: BOOT_WAIT_SECONDS }
                },
                _ => InitAction::Wait,
            },
            InitPhase::Booting => match event {
                InitEvent::Waited => {
                    self.phase = InitPhase::QueryingIp;
                    InitAction::QueryIp { name: vm_name(self.pool.len() as u32) }
                },
                _ => InitAction::Wait,
            },
            InitPhase::QueryingIp => match event {
                InitEvent::IoError { message } => self.fail(message),
                InitEvent::CommandDone { success, stdout, stderr } => {
                    self.ip = if success {
                        trim(stdout.as_str())
                    } else {
                        String::new()
                    };
                    let known = !self.ip.as_str().is_empty();
                    match &self.setup {
                        Some(path) => {
                            if known {
                                let path = path.clone();
                                self.phase = InitPhase::ProbingSetup;
                                InitAction::ProbeSetup { path }
                            } else {
                                self.finish_slot()
                            }
                        },
                        None => self.finish_slot(),
                    }
                },
                _ => InitAction::Wait,
            },
            InitPhase::ProbingSetup => match event {
                InitEvent::SetupProbed { is_file } => {
                    let path = match &self.setup {
                        Some(p) => p.clone(),
                        None => unreached(),
                    };
                    if is_file {
                        self.phase = InitPhase::CopyingSetup;
                        InitAction::CopySetup {
                            path,
                            target: join3("admin@", self.ip.as_str(), ":~/setup.sh"),
                        }
                    } else {
                        self.phase = InitPhase::RunningSetup;
                        InitAction::RunSetup { ip: self.ip.clone(), command: path }
                    }
                },
                _ => InitAction::Wait,
            },
            InitPhase::CopyingSetup => match event {
                InitEvent::CommandDone { success, stdout, stderr } => {
                    if success {
                        self.phase = InitPhase::RunningSetup;
                        InitAction::RunSetup {
                            ip: self.ip.clone(),
                            command: String::from_str("chmod +x ~/setup.sh && ~/setup.sh"),
                        }
                    } else {
                        self.finish_slot()
                    }
                },
                InitEvent::IoError { message } => self.finish_slot(),
                _ => InitAction::Wait,
            },
            InitPhase::RunningSetup => match event {
                InitEvent::CommandDone { success, stdout, stderr } => self.finish_slot(),
                InitEvent::IoError { message } => self.finish_slot(),
                _ => InitAction::Wait,
            },
        }
    }

    /// The pool, once every slot has joined it: `size` VMs, all Ready,
    /// slot `i` holding `pool-vm-i`. `None` while the initialisation is not
    /// done.
    pub fn into_pool(self) -> (pool: Option<VmPool>)
        requires
            self.wf(),
        ensures
            match pool {
                Some(p) => {
                    &&& self@.phase == InitPhase::Done
                    &&& p.wf()
                    &&& p@ == self@.pool
                    &&& p@.len() == self@.size
                    &&& forall|i: int|
                        0 <= i < p@.len() ==> (#[trigger] p@[i]).state == VmState::Ready
                            && p@[i].name == slot_name(i as nat)
                },
                None => self@.phase != InitPhase::Done,
            },
    {
        match self.phase {
            InitPhase::Done => Some(self.pool),
            _ => None,
        }
    }
}

} // verus!
