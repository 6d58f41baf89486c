//! The provisioner: how a new environment is made from a profile.
//!
//! The template image is fetched, the environment is created under its name,
//! and it is started. Each of the three is tried once, and the first failure
//! ends the whole operation. The provisioner performs none of this itself:
//! it is told what happened and answers with what has to be done next.

use crate::config::Profile;
use vstd::prelude::*;

verus! {

/// The runtime that an environment with the GPU runs under.
pub const GPU_RUNTIME: &'static str = "nvidia";

/// One thing that an environment may use beyond the ordinary.
#[derive(Clone, Copy, Debug, PartialEq, Eq, Structural)]
pub enum Capability {
    /// The GPU of the host.
    Gpu,
}

/// What an environment may use beyond the ordinary.
#[derive(Clone, Copy, Debug, PartialEq, Eq, Structural)]
pub struct Capabilities {
    /// Whether the environment gets the GPU.
    pub gpu: bool,
}

impl Capabilities {
    /// The capabilities as a list of flags: empty without the GPU.
    pub open spec fn listed(self) -> Seq<Capability> {
        if self.gpu {
            seq![Capability::Gpu]
        } else {
            Seq::empty()
        }
    }

    /// The capabilities as a list of flags.
    pub fn flags(&self) -> (flags: Vec<Capability>)
        ensures
            flags@ == self.listed(),
    {
        let mut flags: Vec<Capability> = Vec::new();
        if self.gpu {
            flags.push(Capability::Gpu);
        }
        assert(flags@ =~= self.listed());
        flags
    }

    /// The runtime that the environment has to run under, if it is not the
    /// control plane's own choice.
    pub fn runtime(&self) -> (runtime: Option<&'static str>)
        ensures
            runtime == if self.gpu {
                Some(GPU_RUNTIME)
            } else {
                None
            },
    {
        if self.gpu {
            Some(GPU_RUNTIME)
        } else {
            None
        }
    }
}

/// The environment that a provisioner asks the control plane to create.
#[derive(Debug, PartialEq, Eq)]
pub struct EnvironmentRequest {
    /// The name of the environment.
    pub name: String,
    /// The reference of the template image.
    pub image: String,
    /// What the environment may use.
    pub capabilities: Capabilities,
    /// Whether the environment gets a terminal of its own.
    pub tty: bool,
}

/// What the control plane answers when it has created an environment.
#[derive(Debug, PartialEq, Eq)]
pub struct EnvironmentHandle {
    /// The identifier that the control plane gave the environment.
    pub id: String,
    /// What the control plane had to remark.
    pub warnings: Vec<String>,
}

/// Why an environment could not be provisioned.
#[derive(Debug, PartialEq, Eq)]
pub enum ProvisionError {
    /// The template image could not be fetched, for this cause.
    ImagePull(String),
    /// The environment could not be created, for this cause.
    Create(String),
    /// The environment could not be started, for this cause.
    Start(String),
}

impl ProvisionError {
    /// A copy of this error.
    pub fn duplicate(&self) -> (copy: ProvisionError)
        ensures
            copy == *self,
    {
        match self {
            ProvisionError::ImagePull(cause) => ProvisionError::ImagePull(cause.clone()),
            ProvisionError::Create(cause) => ProvisionError::Create(cause.clone()),
            ProvisionError::Start(cause) => ProvisionError::Start(cause.clone()),
        }
    }
}

/// What a provisioner is told: the outcome of the action it asked for last.
#[derive(Debug, PartialEq, Eq)]
pub enum ProvisionEvent {
    /// The caller wants the environment.
    Begin,
    /// The template image is at hand.
    ImagePulled,
    /// The template image could not be fetched, for this cause.
    ImagePullFailed(String),
    /// The control plane created the environment.
    EnvironmentCreated(EnvironmentHandle),
    /// The control plane could not create the environment, for this cause.
    CreateFailed(String),
    /// The environment runs.
    EnvironmentStarted,
    /// The control plane could not start the environment, for this cause.
    StartFailed(String),
}

/// What a provisioner asks for.
#[derive(Debug, PartialEq, Eq)]
pub enum ProvisionAction {
    /// Fetch the template image with this reference, in one attempt.
    PullImage(String),
    /// Ask the control plane to create this environment.
    CreateEnvironment(EnvironmentRequest),
    /// Ask the control plane to start the environment of this name.
    StartEnvironment(String),
    /// Return this result to the caller.
    Finish(Result<EnvironmentHandle, ProvisionError>),
}

/// The step a provisioner is at.
#[derive(Debug, PartialEq, Eq)]
pub enum ProvisionPhase {
    /// Name and profile are known; nothing was asked of the control plane.
    Requested,
    /// The template image is being fetched.
    PullingImage,
    /// The environment is being created.
    Creating,
    /// The environment was created with this handle and is being started.
    Starting(EnvironmentHandle),
    /// The environment runs.
    Provisioned,
    /// Provisioning failed.
    Failed(ProvisionError),
}

impl ProvisionPhase {
    /// Whether the provisioner has returned its result.
    pub open spec fn finished(self) -> bool {
        self is Provisioned || self is Failed
    }
}

/// What a provisioner is, for the contracts: the name and the profile of the
/// environment, and the step the provisioner is at.
pub ghost struct ProvisionModel {
    /// The name of the environment.
    pub name: String,
    /// The profile that the environment is made from.
    pub profile: Profile,
    /// The step the provisioner is at.
    pub phase: ProvisionPhase,
}

/// The environment that is created under `name` from `profile`: the
/// profile's image, the GPU where the profile grants it, and a terminal.
pub open spec fn environment_request(name: String, profile: Profile) -> EnvironmentRequest {
    EnvironmentRequest {
        name,
        image: profile.image,
        capabilities: Capabilities { gpu: profile.gpu },
        tty: true,
    }
}

/// The step and the action with which a provisioner gives up for `error`.
pub open spec fn provision_failure(error: ProvisionError) -> (ProvisionPhase, ProvisionAction) {
    (ProvisionPhase::Failed(error), ProvisionAction::Finish(Err(error)))
}

impl ProvisionModel {
    /// The provisioner for `name` and `profile` before anything has happened.
    pub open spec fn requested(name: String, profile: Profile) -> ProvisionModel {
        ProvisionModel { name, profile, phase: ProvisionPhase::Requested }
    }

    /// The transition table: the step that follows and the action asked for,
    /// or `None` where `event` cannot follow the action that is outstanding.
    pub open spec fn transition(self, event: ProvisionEvent) -> Option<
        (ProvisionPhase, ProvisionAction),
    > {
        match (self.phase, event) {
            (ProvisionPhase::Requested, ProvisionEvent::Begin) => Some(
                (ProvisionPhase::PullingImage, ProvisionAction::PullImage(self.profile.image)),
            ),
            (ProvisionPhase::PullingImage, ProvisionEvent::ImagePulled) => Some(
                (
                    ProvisionPhase::Creating,
                    ProvisionAction::CreateEnvironment(
                        environment_request(self.name, self.profile),
                    ),
                ),
            ),
            (ProvisionPhase::PullingImage, ProvisionEvent::ImagePullFailed(cause)) => Some(
                provision_failure(ProvisionError::ImagePull(cause)),
            ),
            (ProvisionPhase::Creating, ProvisionEvent::EnvironmentCreated(handle)) => Some(
                (ProvisionPhase::Starting(handle), ProvisionAction::StartEnvironment(self.name)),
            ),
            (ProvisionPhase::Creating, ProvisionEvent::CreateFailed(cause)) => Some(
                provision_failure(ProvisionError::Create(cause)),
            ),
            (ProvisionPhase::Starting(handle), ProvisionEvent::EnvironmentStarted) => Some(
                (ProvisionPhase::Provisioned, ProvisionAction::Finish(Ok(handle))),
            ),
            (ProvisionPhase::Starting(_), ProvisionEvent::StartFailed(cause)) => Some(
                provision_failure(ProvisionError::Start(cause)),
            ),
            _ => None,
        }
    }

    /// The provisioner after `event`, and the action it asks for. A refused
    /// event changes nothing and asks for nothing.
    pub open spec fn next(self, event: ProvisionEvent) -> (
        ProvisionModel,
        Option<ProvisionAction>,
    ) {
        match self.transition(event) {
            Some((phase, action)) => (
                ProvisionModel { name: self.name, profile: self.profile, phase },
                Some(action),
            ),
            None => (self, None),
        }
    }
}

/// A provisioner.
#[derive(Debug)]
pub struct Provisioner {
    name: String,
    profile: Profile,
    phase: ProvisionPhase,
}

impl View for Provisioner {
    type V = ProvisionModel;

    closed spec fn view(&self) -> ProvisionModel {
        ProvisionModel { name: self.name, profile: self.profile, phase: self.phase }
    }
}

/// A provisioner for an environment named `container_name`, made from
/// `profile`. Nothing has been asked of the control plane yet.
pub fn create_container(container_name: &str, profile: &Profile) -> (provisioner: Provisioner)
    ensures
        provisioner@.name@ == container_name@,
        provisioner@.profile == *profile,
        provisioner@.phase == ProvisionPhase::Requested,
{
    Provisioner {
        name: container_name.to_owned(),
        profile: profile.clone(),
        phase: ProvisionPhase::Requested,
    }
}

impl Provisioner {
    /// The name of the environment.
    pub fn name(&self) -> (name: &String)
        ensures
            *name == self@.name,
    {
        &self.name
    }

    /// The profile that the environment is made from.
    pub fn profile(&self) -> (profile: &Profile)
        ensures
            *profile == self@.profile,
    {
        &self.profile
    }

    /// The step the provisioner is at.
    pub fn phase(&self) -> (phase: &ProvisionPhase)
        ensures
            *phase == self@.phase,
    {
        &self.phase
    }

    /// Takes `event` and returns the action to perform next. An event that
    /// cannot follow the outstanding action is refused: the provisioner
    /// stays as it is and `None` is returned.
    pub fn step(&mut self, event: ProvisionEvent) -> (action: Option<ProvisionAction>)
        ensures
            (final(self)@, action) == old(self)@.next(event),
    {
        let mut phase = ProvisionPhase::Requested;
        core::mem::swap(&mut phase, &mut self.phase);
        let (after, action) = match (phase, event) {
            (ProvisionPhase::Requested, ProvisionEvent::Begin) => (
                ProvisionPhase::PullingImage,
                Some(ProvisionAction::PullImage(self.profile.image.clone())),
            ),
            (ProvisionPhase::PullingImage, ProvisionEvent::ImagePulled) => {
                let request = EnvironmentRequest {
                    name: self.name.clone(),
                    image: self.profile.image.clone(),
                    capabilities: Capabilities { gpu: self.profile.gpu },
                    tty: true,
                };
                (ProvisionPhase::Creating, Some(ProvisionAction::CreateEnvironment(request)))
            },
            (ProvisionPhase::PullingImage, ProvisionEvent::ImagePullFailed(cause)) => renounce(
                ProvisionError::ImagePull(cause),
            ),
            (ProvisionPhase::Creating, ProvisionEvent::EnvironmentCreated(handle)) => (
                ProvisionPhase::Starting(handle),
                Some(ProvisionAction::StartEnvironment(self.name.clone())),
            ),
            (ProvisionPhase::Creating, ProvisionEvent::CreateFailed(cause)) => renounce(
                ProvisionError::Create(cause),
            ),
            (ProvisionPhase::Starting(handle), ProvisionEvent::EnvironmentStarted) => (
                ProvisionPhase::Provisioned,
                Some(ProvisionAction::Finish(Ok(handle))),
            ),
            (ProvisionPhase::Starting(_), ProvisionEvent::StartFailed(cause)) => renounce(
                ProvisionError::Start(cause),
            ),
            (unchanged, _) => (unchanged, None),
        };
        self.phase = after;
        action
    }
}

/// The step and the action with which a provisioner gives up for `error`.
fn renounce(error: ProvisionError) -> (answer: (ProvisionPhase, Option<ProvisionAction>))
    ensures
        answer.0 == provision_failure(error).0,
        answer.1 == Some(provision_failure(error).1),
{
    let reported = error.duplicate();
    (ProvisionPhase::Failed(error), Some(ProvisionAction::Finish(Err(reported))))
}

/// The provisioner after `events`, and the actions it asked for on the way,
/// when it starts as `provisioner`. A refused event changes nothing.
pub open spec fn provision_run(provisioner: ProvisionModel, events: Seq<ProvisionEvent>) -> (
    ProvisionModel,
    Seq<ProvisionAction>,
)
    decreases events.len(),
{
    if events.len() == 0 {
        (provisioner, Seq::empty())
    } else {
        let (before, actions) = provision_run(provisioner, events.drop_last());
        match before.next(events.last()) {
            (after, Some(action)) => (after, actions.push(action)),
            (after, None) => (after, actions),
        }
    }
}

/// What the actions of a provisioner for `name` and `profile` are when it
/// is at step `phase`: the image is fetched first, the environment is
/// created next and started last, each once, and what follows a failure is
/// the failure's return alone.
pub open spec fn provision_record(
    name: String,
    profile: Profile,
    phase: ProvisionPhase,
    actions: Seq<ProvisionAction>,
) -> bool {
    let pull = ProvisionAction::PullImage(profile.image);
    let create = ProvisionAction::CreateEnvironment(environment_request(name, profile));
    let start = ProvisionAction::StartEnvironment(name);
    match phase {
        ProvisionPhase::Requested => actions == Seq::<ProvisionAction>::empty(),
        ProvisionPhase::PullingImage => actions == seq![pull],
        ProvisionPhase::Creating => actions == seq![pull, create],
        ProvisionPhase::Starting(_) => actions == seq![pull, create, start],
        ProvisionPhase::Provisioned => {
            &&& actions.len() == 4
            &&& actions.subrange(0, 3) == seq![pull, create, start]
            &&& actions[3] matches ProvisionAction::Finish(outcome)
            &&& outcome is Ok
        },
        ProvisionPhase::Failed(ProvisionError::ImagePull(cause)) => actions == seq![
            pull,
            ProvisionAction::Finish(Err(ProvisionError::ImagePull(cause))),
        ],
        ProvisionPhase::Failed(ProvisionError::Create(cause)) => actions == seq![
            pull,
            create,
            ProvisionAction::Finish(Err(ProvisionError::Create(cause))),
        ],
        ProvisionPhase::Failed(ProvisionError::Start(cause)) => actions == seq![
            pull,
            create,
            start,
            ProvisionAction::Finish(Err(ProvisionError::Start(cause))),
        ],
    }
}

/// Whatever a provisioner is told, from its creation on, it asks for the
/// three steps in their order, for none of them twice, and for nothing after
/// a failure but the return of that failure.
pub proof fn lemma_provision_record(name: String, profile: Profile, events: Seq<ProvisionEvent>)
    ensures
        ({
            let (provisioner, actions) = provision_run(
                ProvisionModel::requested(name, profile),
                events,
            );
            &&& provisioner.name == name
            &&& provisioner.profile == profile
            &&& provision_record(name, profile, provisioner.phase, actions)
        }),
    decreases events.len(),
{
    if events.len() > 0 {
        lemma_provision_record(name, profile, events.drop_last());
        let (before, actions) = provision_run(
            ProvisionModel::requested(name, profile),
            events.drop_last(),
        );
        match before.next(events.last()) {
            (after, Some(action)) => {
                let extended = actions.push(action);
                let pull = ProvisionAction::PullImage(profile.image);
                let create = ProvisionAction::CreateEnvironment(
                    environment_request(name, profile),
                );
                let start = ProvisionAction::StartEnvironment(name);
                match after.phase {
                    ProvisionPhase::Requested => {},
                    ProvisionPhase::PullingImage => {
                        assert(extended =~= seq![pull]);
                    },
                    ProvisionPhase::Creating => {
                        assert(extended =~= seq![pull, create]);
                    },
                    ProvisionPhase::Starting(_) => {
                        assert(extended =~= seq![pull, create, start]);
                    },
                    ProvisionPhase::Provisioned => {
                        assert(extended.subrange(0, 3) =~= actions);
                    },
                    ProvisionPhase::Failed(ProvisionError::ImagePull(_)) => {
                        assert(extended =~= seq![pull, action]);
                    },
                    ProvisionPhase::Failed(ProvisionError::Create(_)) => {
                        assert(extended =~= seq![pull, create, action]);
                    },
                    ProvisionPhase::Failed(ProvisionError::Start(_)) => {
                        assert(extended =~= seq![pull, create, start, action]);
                    },
                }
            },
            (_, None) => {},
        }
    }
}

/// When every step succeeds, the provisioner asks for the image, then for
/// the environment under its name with the profile's image and capabilities,
/// then for its start, and returns the handle that the control plane gave.
pub proof fn lemma_provision_succeeds(name: String, profile: Profile, handle: EnvironmentHandle)
    ensures
        provision_run(
            ProvisionModel::requested(name, profile),
            seq![
                ProvisionEvent::Begin,
                ProvisionEvent::ImagePulled,
                ProvisionEvent::EnvironmentCreated(handle),
                ProvisionEvent::EnvironmentStarted,
            ],
        ) == (
            ProvisionModel { name, profile, phase: ProvisionPhase::Provisioned },
            seq![
                ProvisionAction::PullImage(profile.image),
                ProvisionAction::CreateEnvironment(environment_request(name, profile)),
                ProvisionAction::StartEnvironment(name),
                ProvisionAction::Finish(Ok(handle)),
            ],
        ),
{
    let start = ProvisionModel::requested(name, profile);
    let none = Seq::<ProvisionEvent>::empty();
    let one = none.push(ProvisionEvent::Begin);
    let two = one.push(ProvisionEvent::ImagePulled);
    let three = two.push(ProvisionEvent::EnvironmentCreated(handle));
    let four = three.push(ProvisionEvent::EnvironmentStarted);
    assert(one.drop_last() =~= none);
    assert(two.drop_last() =~= one);
    assert(three.drop_last() =~= two);
    assert(four.drop_last() =~= three);
    assert(provision_run(start, none).1 =~= Seq::<ProvisionAction>::empty());
    assert(provision_run(start, one).1 =~= seq![ProvisionAction::PullImage(profile.image)]);
    assert(provision_run(start, two).1 =~= seq![
        ProvisionAction::PullImage(profile.image),
        ProvisionAction::CreateEnvironment(environment_request(name, profile)),
    ]);
    assert(provision_run(start, three).1 =~= seq![
        ProvisionAction::PullImage(profile.image),
        ProvisionAction::CreateEnvironment(environment_request(name, profile)),
        ProvisionAction::StartEnvironment(name),
    ]);
    assert(provision_run(start, four).1 =~= seq![
        ProvisionAction::PullImage(profile.image),
        ProvisionAction::CreateEnvironment(environment_request(name, profile)),
        ProvisionAction::StartEnvironment(name),
        ProvisionAction::Finish(Ok(handle)),
    ]);
    assert(four =~= seq![
        ProvisionEvent::Begin,
        ProvisionEvent::ImagePulled,
        ProvisionEvent::EnvironmentCreated(handle),
        ProvisionEvent::EnvironmentStarted,
    ]);
}

} // verus!
