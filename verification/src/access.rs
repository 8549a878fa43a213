//! Who may call, who acts, and what the dependencies are asked before anything is
//! stored or read.

use vstd::prelude::*;
use vstd::string::*;

use crate::fault::{plugin_failure, CallError, CallErrorView, Fault, FaultView};
use crate::text::same_text;
use crate::validate;
use crate::validate::{valid_opaque_id, MAX_ID_BYTES};

verus! {

/// What a subject may do in an organization.
#[derive(Clone, Copy, Debug, Eq, PartialEq)]
pub enum Permission {
    Create,
    Read,
    Write,
    Assign,
    Transition,
    Comment,
    InternalNote,
}

/// The name under which Access Control knows a permission.
pub open spec fn permission_name(permission: Permission) -> Seq<char> {
    match permission {
        Permission::Create => "support.cases.create"@,
        Permission::Read => "support.cases.read"@,
        Permission::Write => "support.cases.write"@,
        Permission::Assign => "support.cases.assign"@,
        Permission::Transition => "support.cases.transition"@,
        Permission::Comment => "support.cases.comment"@,
        Permission::InternalNote => "support.cases.internal-note"@,
    }
}

pub fn permission_text(permission: Permission) -> (text: &'static str)
    ensures
        text@ == permission_name(permission),
{
    match permission {
        Permission::Create => "support.cases.create",
        Permission::Read => "support.cases.read",
        Permission::Write => "support.cases.write",
        Permission::Assign => "support.cases.assign",
        Permission::Transition => "support.cases.transition",
        Permission::Comment => "support.cases.comment",
        Permission::InternalNote => "support.cases.internal-note",
    }
}

/// Why a call is refused before anything is stored or read.
#[derive(Clone, Copy, Debug, Eq, PartialEq)]
pub enum Refusal {
    Forbidden,
    Unauthenticated,
    InvalidRequest,
}

/// What a dependency is asked about a subject.
#[derive(Clone, Copy, Debug, Eq, PartialEq)]
pub enum Demand {
    /// Organization Membership: is the subject an active member?
    Membership,
    /// Access Control: does the subject have the permission?
    Permission(Permission),
}

/// One question, and what a denial means: a refusal, or only a narrower view.
#[derive(Debug, Eq, PartialEq)]
pub struct Check {
    pub subject: String,
    pub demand: Demand,
    pub denial: Option<Refusal>,
}

/// The view of a question.
#[verifier::ext_equal]
pub struct CheckView {
    pub subject: Seq<char>,
    pub demand: Demand,
    pub denial: Option<Refusal>,
}

impl View for Check {
    type V = CheckView;

    open spec fn view(&self) -> CheckView {
        CheckView { subject: self.subject@, demand: self.demand, denial: self.denial }
    }
}

/// The views of questions.
pub open spec fn check_views(checks: Seq<Check>) -> Seq<CheckView> {
    checks.map_values(|check: Check| check@)
}

/// What a dependency said.
#[derive(Debug, Eq, PartialEq)]
pub enum Reply<F> {
    /// It answered the question.
    Answered(bool),
    /// It rejected the question.
    Rejected,
    /// It failed.
    Failed(F),
}

/// What is said of a dependency that rejects a question.
pub open spec fn rejection_text(demand: Demand) -> Seq<char> {
    match demand {
        Demand::Membership =>
            "Organization Membership rejected a Support Case authorization query"@,
        Demand::Permission(_) => "Access Control rejected a Support Case authorization query"@,
    }
}

/// The answer in a reply, or the failure that it is. Only an answer can allow.
pub fn answer_of<F>(demand: Demand, reply: Reply<F>) -> (result: Result<bool, Fault<F>>)
    ensures
        match reply {
            Reply::Answered(answer) => result == Ok::<bool, Fault<F>>(answer),
            Reply::Rejected => result matches Err(fault) && fault@
                == FaultView::<F>::PluginFailure(rejection_text(demand)),
            Reply::Failed(failure) => result matches Err(fault) && fault@
                == FaultView::<F>::Dependency(failure),
        },
{
    match reply {
        Reply::Answered(answer) => Ok(answer),
        Reply::Rejected => Err(
            match demand {
                Demand::Membership => plugin_failure(
                    "Organization Membership rejected a Support Case authorization query",
                ),
                Demand::Permission(_) => plugin_failure(
                    "Access Control rejected a Support Case authorization query",
                ),
            },
        ),
        Reply::Failed(failure) => Err(Fault::Dependency(failure)),
    }
}

/// Whether a list of callers holds a name.
pub open spec fn names_caller(allowed: Seq<String>, caller: Seq<char>) -> bool {
    exists|i: int| 0 <= i < allowed.len() && (#[trigger] allowed[i])@ == caller
}

/// The caller of a call, where it is one of the exact callers allowed.
pub fn allowed_caller(caller: Option<&str>, allowed: &Vec<String>) -> (result: Option<String>)
    ensures
        match result {
            Some(name) => caller matches Some(given) && name@ == given@ && names_caller(
                allowed@,
                given@,
            ),
            None => caller matches Some(given) ==> !names_caller(allowed@, given@),
        },
{
    let name = match caller {
        Some(name) => name,
        None => {
            return None;
        },
    };
    let mut index: usize = 0;
    while index < allowed.len()
        invariant
            index <= allowed@.len(),
            caller == Some(name),
            forall|i: int| 0 <= i < index ==> (#[trigger] allowed@[i])@ != name@,
        decreases allowed@.len() - index,
    {
        if same_text(allowed[index].as_str(), name) {
            assert(allowed@[index as int]@ == name@);
            return Some(name.to_owned());
        }
        index += 1;
    }
    None
}

/// The subject that an assertion was projected to, where it is acceptable.
pub fn authenticated_subject(projected: Option<String>) -> (result: Result<String, ()>)
    ensures
        match projected {
            Some(subject) => if validate::opaque_id(subject@, MAX_ID_BYTES as nat) {
                result == Ok::<String, ()>(subject)
            } else {
                result is Err
            },
            None => result is Err,
        },
{
    match projected {
        Some(subject) => if valid_opaque_id(subject.as_str(), MAX_ID_BYTES) {
            Ok(subject)
        } else {
            Err(())
        },
        None => Err(()),
    }
}

/// A back-office request: what makes it acceptable, and what is asked about its
/// actor before it is served.
pub trait BackOffice: Sized {
    /// The domain errors of the operation.
    type Error;

    /// Whether the request obeys its rules.
    spec fn valid(&self) -> bool;

    /// The organization that the request is about.
    spec fn organization(&self) -> Seq<char>;

    /// What is asked about an actor, in order.
    spec fn checks(&self, actor: Seq<char>) -> Seq<CheckView>;

    /// The operation that an actor's assertion has to name.
    spec fn operation() -> Seq<char>;

    /// The domain error of a refusal.
    spec fn refusal(refusal: Refusal) -> Self::Error;

    /// Whatever else is asked, membership is asked first, and a no is a refusal.
    proof fn membership_comes_first(&self, actor: Seq<char>)
        ensures
            self.checks(actor).len() > 0,
            self.checks(actor)[0] == (CheckView {
                subject: actor,
                demand: Demand::Membership,
                denial: Some(Refusal::Forbidden),
            }),
    ;

    fn is_valid(&self) -> (result: bool)
        ensures
            result == self.valid(),
    ;

    fn organization_id(&self) -> (result: &str)
        ensures
            result@ == self.organization(),
    ;

    fn required_checks(&self, actor: &str) -> (result: Vec<Check>)
        ensures
            check_views(result@) == self.checks(actor@),
    ;

    fn operation_name() -> (result: &'static str)
        ensures
            result@ == Self::operation(),
    ;

    fn refuse(refusal: Refusal) -> (error: Self::Error)
        ensures
            error == Self::refusal(refusal),
    ;
}

/// Where a back-office call stands before it is served.
#[derive(Debug, Eq, PartialEq)]
pub enum Stage<E, F> {
    /// The actor's assertion is to be projected.
    Authenticate,
    /// The next question is to be asked.
    Check { actor: String, checks: Vec<Check>, answers: Vec<bool> },
    /// The storage is to be handed over.
    Open { actor: String, answers: Vec<bool> },
    /// The call may be served.
    Admitted { actor: String, answers: Vec<bool> },
    /// The call is over.
    Ended(CallError<E, F>),
}

/// The view of a stage.
#[verifier::ext_equal]
pub enum StageView<E, F> {
    Authenticate,
    Check { actor: Seq<char>, checks: Seq<CheckView>, answers: Seq<bool> },
    Open { actor: Seq<char>, answers: Seq<bool> },
    Admitted { actor: Seq<char>, answers: Seq<bool> },
    Ended(CallErrorView<E, F>),
}

impl<E, F> View for Stage<E, F> {
    type V = StageView<E, F>;

    open spec fn view(&self) -> StageView<E, F> {
        match self {
            Stage::Authenticate => StageView::Authenticate,
            Stage::Check { actor, checks, answers } => StageView::Check {
                actor: actor@,
                checks: check_views(checks@),
                answers: answers@,
            },
            Stage::Open { actor, answers } => StageView::Open { actor: actor@, answers: answers@ },
            Stage::Admitted { actor, answers } => StageView::Admitted {
                actor: actor@,
                answers: answers@,
            },
            Stage::Ended(error) => StageView::Ended(error@),
        }
    }
}

/// What the host of a call reports.
#[derive(Debug, Eq, PartialEq)]
pub enum Event<F> {
    /// The subject of the projected assertion, if it could be projected.
    Actor(Option<String>),
    /// What the dependency said to the question.
    Reply(Reply<F>),
    /// Whether the storage is prepared.
    Storage(bool),
}

/// Asks the next question, or goes on to the storage when all are answered.
pub open spec fn asking<E, F>(actor: Seq<char>, checks: Seq<CheckView>, answers: Seq<bool>) -> StageView<
    E,
    F,
> {
    if answers.len() < checks.len() {
        StageView::Check { actor, checks, answers }
    } else {
        StageView::Open { actor, answers }
    }
}

/// The stage that follows an event. An event that the stage does not wait for
/// changes nothing.
pub open spec fn next_stage<R: BackOffice, F>(
    request: R,
    stage: StageView<R::Error, F>,
    event: Event<F>,
) -> StageView<R::Error, F> {
    match (stage, event) {
        (StageView::Authenticate, Event::Actor(projected)) => match projected {
            Some(subject) => if !validate::opaque_id(subject@, MAX_ID_BYTES as nat) {
                StageView::Ended(CallErrorView::Domain(R::refusal(Refusal::Unauthenticated)))
            } else if !request.valid() {
                StageView::Ended(CallErrorView::Domain(R::refusal(Refusal::InvalidRequest)))
            } else {
                asking(subject@, request.checks(subject@), Seq::empty())
            },
            None => StageView::Ended(CallErrorView::Domain(R::refusal(Refusal::Unauthenticated))),
        },
        (StageView::Check { actor, checks, answers }, Event::Reply(reply)) => {
            let check = checks[answers.len() as int];
            match reply {
                Reply::Answered(answer) => if !answer && check.denial is Some {
                    StageView::Ended(CallErrorView::Domain(R::refusal(check.denial->0)))
                } else {
                    asking(actor, checks, answers.push(answer))
                },
                Reply::Rejected => StageView::Ended(
                    CallErrorView::Runtime(FaultView::PluginFailure(rejection_text(check.demand))),
                ),
                Reply::Failed(failure) => StageView::Ended(
                    CallErrorView::Runtime(FaultView::Dependency(failure)),
                ),
            }
        },
        (StageView::Open { actor, answers }, Event::Storage(prepared)) => if prepared {
            StageView::Admitted { actor, answers }
        } else {
            StageView::Ended(
                CallErrorView::Runtime(
                    FaultView::PluginFailure("Support Case Plugin is not prepared"@),
                ),
            )
        },
        _ => stage,
    }
}

/// Whether answers let a request through: every question whose denial is a refusal
/// was answered with yes.
pub open spec fn answers_admit(checks: Seq<CheckView>, answers: Seq<bool>) -> bool {
    &&& answers.len() <= checks.len()
    &&& forall|i: int|
        0 <= i < answers.len() && (#[trigger] checks[i]).denial is Some ==> answers[i]
}

/// What holds of every stage that a call can reach.
pub open spec fn stage_sound<R: BackOffice, F>(request: R, stage: StageView<R::Error, F>) -> bool {
    match stage {
        StageView::Authenticate => true,
        StageView::Check { actor, checks, answers } => {
            &&& validate::opaque_id(actor, MAX_ID_BYTES as nat)
            &&& request.valid()
            &&& checks == request.checks(actor)
            &&& answers.len() < checks.len()
            &&& answers_admit(checks, answers)
        },
        StageView::Open { actor, answers } => admits(request, actor, answers),
        StageView::Admitted { actor, answers } => admits(request, actor, answers),
        StageView::Ended(_) => true,
    }
}

/// Whether an actor with these answers is let through to a request.
pub open spec fn admits<R: BackOffice>(request: R, actor: Seq<char>, answers: Seq<bool>) -> bool {
    &&& validate::opaque_id(actor, MAX_ID_BYTES as nat)
    &&& request.valid()
    &&& answers.len() == request.checks(actor).len()
    &&& answers_admit(request.checks(actor), answers)
}

/// One back-office call on its way to being served.
#[derive(Debug)]
pub struct Session<R: BackOffice, F> {
    pub request: R,
    pub caller: String,
    pub stage: Stage<R::Error, F>,
}

/// A call that may be served.
#[derive(Debug)]
pub struct Admission<R> {
    pub request: R,
    pub caller: String,
    pub actor: String,
    pub answers: Vec<bool>,
}

impl<R: BackOffice> Admission<R> {
    /// Whether the call was let through.
    pub open spec fn valid(self) -> bool {
        admits(self.request, self.actor@, self.answers@)
    }
}

impl<R: BackOffice, F> Session<R, F> {
    /// Whether the call stands where a call can stand.
    pub open spec fn valid(self) -> bool {
        stage_sound(self.request, self.stage@)
    }

    /// Begins a call: only an exact caller gets past this point.
    pub fn start(allowed: &Vec<String>, caller: Option<&str>, request: R) -> (session: Session<
        R,
        F,
    >)
        ensures
            session.valid(),
            session.request == request,
            match caller {
                Some(name) => if names_caller(allowed@, name@) {
                    session.stage@ == StageView::<R::Error, F>::Authenticate && session.caller@
                        == name@
                } else {
                    session.stage@ == StageView::<R::Error, F>::Ended(
                        CallErrorView::Domain(R::refusal(Refusal::Forbidden)),
                    )
                },
                None => session.stage@ == StageView::<R::Error, F>::Ended(
                    CallErrorView::Domain(R::refusal(Refusal::Forbidden)),
                ),
            },
    {
        match allowed_caller(caller, allowed) {
            Some(name) => Session { request, caller: name, stage: Stage::Authenticate },
            None => Session {
                request,
                caller: String::new(),
                stage: Stage::Ended(CallError::Domain(R::refuse(Refusal::Forbidden))),
            },
        }
    }

    fn ask(actor: String, checks: Vec<Check>, answers: Vec<bool>) -> (stage: Stage<R::Error, F>)
        ensures
            stage@ == asking::<R::Error, F>(actor@, check_views(checks@), answers@),
    {
        if answers.len() < checks.len() {
            Stage::Check { actor, checks, answers }
        } else {
            Stage::Open { actor, answers }
        }
    }

    fn denied(refusal: Refusal) -> (stage: Stage<R::Error, F>)
        ensures
            stage@ == StageView::<R::Error, F>::Ended(CallErrorView::Domain(R::refusal(refusal))),
    {
        Stage::Ended(CallError::Domain(R::refuse(refusal)))
    }

    /// Goes on after an event.
    pub fn resume(self, event: Event<F>) -> (session: Session<R, F>)
        requires
            self.valid(),
        ensures
            session.valid(),
            session.request == self.request,
            session.caller == self.caller,
            session.stage@ == next_stage(self.request, self.stage@, event),
    {
        let request = self.request;
        let caller = self.caller;
        let stage = match (self.stage, event) {
            (Stage::Authenticate, Event::Actor(projected)) => match authenticated_subject(
                projected,
            ) {
                Ok(subject) => if request.is_valid() {
                    let checks = request.required_checks(subject.as_str());
                    let answers: Vec<bool> = Vec::new();
                    Self::ask(subject, checks, answers)
                } else {
                    Self::denied(Refusal::InvalidRequest)
                },
                Err(()) => Self::denied(Refusal::Unauthenticated),
            },
            (Stage::Check { actor, checks, answers }, Event::Reply(reply)) => {
                let index: usize = answers.len();
                let demand = checks[index].demand;
                let denial = checks[index].denial;
                assert(check_views(checks@)[index as int] == checks@[index as int]@);
                match answer_of(demand, reply) {
                    Err(fault) => Stage::Ended(CallError::Runtime(fault)),
                    Ok(answer) => match denial {
                        Some(refusal) if !answer => Self::denied(refusal),
                        _ => {
                            let mut answers = answers;
                            answers.push(answer);
                            Self::ask(actor, checks, answers)
                        },
                    },
                }
            },
            (Stage::Open { actor, answers }, Event::Storage(prepared)) => if prepared {
                Stage::Admitted { actor, answers }
            } else {
                Stage::Ended(
                    CallError::Runtime(plugin_failure("Support Case Plugin is not prepared")),
                )
            },
            (stage, _) => stage,
        };
        Session { request, caller, stage }
    }

    /// The call, once it may be served.
    pub fn admitted(self) -> (result: Option<Admission<R>>)
        requires
            self.valid(),
        ensures
            match self.stage@ {
                StageView::Admitted { actor, answers } => result matches Some(admission)
                    && admission.valid() && admission.request == self.request && admission.caller
                    == self.caller && admission.actor@ == actor && admission.answers@ == answers,
                _ => result is None,
            },
    {
        match self.stage {
            Stage::Admitted { actor, answers } => Some(
                Admission { request: self.request, caller: self.caller, actor, answers },
            ),
            _ => None,
        }
    }
}

/// No call of the back office is served for an actor who is not an active member:
/// no permission replaces the membership.
pub proof fn law_only_members_are_served<R: BackOffice>(
    request: R,
    actor: Seq<char>,
    answers: Seq<bool>,
)
    requires
        admits(request, actor, answers),
    ensures
        request.checks(actor)[0].demand == Demand::Membership,
        request.checks(actor)[0].subject == actor,
        answers[0],
{
    request.membership_comes_first(actor);
}

/// A dependency that rejects a question, or fails, never lets a call through.
pub proof fn law_only_answers_admit<R: BackOffice, F>(
    request: R,
    stage: StageView<R::Error, F>,
    reply: Reply<F>,
)
    requires
        stage is Check,
        !(reply is Answered),
    ensures
        next_stage(request, stage, Event::Reply(reply)) matches StageView::Ended(
            CallErrorView::Runtime(_),
        ),
{
}

} // verus!
