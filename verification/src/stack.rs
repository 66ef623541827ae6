//! What is said to and heard from the stack provider: parameters, the event
//! history of a stack, and the test that tells when a stack has converged.

use vstd::prelude::*;
use vstd::string::*;

verus! {

/// Why a deployment did not converge.
#[derive(Debug, Clone, Copy, PartialEq, Eq, Structural)]
pub enum DeployError {
    /// The provider refused the submission, for a reason other than that the
    /// stack already exists.
    CreateStackFailed,
    /// The event history could not be fetched.
    DescribeStackFailed,
    /// The time budget ran out before the stack was complete.
    TimedOut,
}

/// The name of a [`DeployError`], as it is shown to the user.
pub open spec fn error_name(error: DeployError) -> Seq<char> {
    match error {
        DeployError::CreateStackFailed => "CreateStackFailed"@,
        DeployError::DescribeStackFailed => "DescribeStackFailed"@,
        DeployError::TimedOut => "TimedOut"@,
    }
}

impl DeployError {
    pub fn to_string(&self) -> (name: String)
        ensures
            name@ == error_name(*self),
    {
        match self {
            DeployError::CreateStackFailed => String::from_str("CreateStackFailed"),
            DeployError::DescribeStackFailed => String::from_str("DescribeStackFailed"),
            DeployError::TimedOut => String::from_str("TimedOut"),
        }
    }
}

/// A key and a value handed to a stack template.
#[derive(Debug, PartialEq)]
pub struct SimpleParameter {
    key: String,
    value: String,
}

/// What a [`SimpleParameter`] holds.
pub struct ParameterModel {
    pub key: Seq<char>,
    pub value: Seq<char>,
}

impl View for SimpleParameter {
    type V = ParameterModel;

    closed spec fn view(&self) -> ParameterModel {
        ParameterModel { key: self.key@, value: self.value@ }
    }
}

impl DeepView for SimpleParameter {
    type V = ParameterModel;

    open spec fn deep_view(&self) -> ParameterModel {
        self@
    }
}

impl SimpleParameter {
    pub fn new(key: String, value: String) -> (parameter: SimpleParameter)
        ensures
            parameter@ == (ParameterModel { key: key@, value: value@ }),
    {
        SimpleParameter { key, value }
    }

    pub fn key(&self) -> (key: &String)
        ensures
            key@ == self@.key,
    {
        &self.key
    }

    pub fn value(&self) -> (value: &String)
        ensures
            value@ == self@.value,
    {
        &self.value
    }

    /// A copy with the same key and value.
    pub fn duplicate(&self) -> (parameter: SimpleParameter)
        ensures
            parameter@ == self@,
    {
        SimpleParameter { key: self.key.clone(), value: self.value.clone() }
    }
}

/// The name under which [`SimpleParameter`] also goes.
pub type Parameter = SimpleParameter;

/// A parameter of a stack update: a new value, or the instruction to keep
/// the value that the stack has.
#[derive(Debug, PartialEq)]
pub struct UpdateParameter {
    pub key: String,
    pub value: Option<String>,
}

/// What an [`UpdateParameter`] holds; `None` keeps the previous value.
pub struct UpdateParameterModel {
    pub key: Seq<char>,
    pub value: Option<Seq<char>>,
}

impl View for UpdateParameter {
    type V = UpdateParameterModel;

    open spec fn view(&self) -> UpdateParameterModel {
        UpdateParameterModel { key: self.key@, value: self.value.deep_view() }
    }
}

impl DeepView for UpdateParameter {
    type V = UpdateParameterModel;

    open spec fn deep_view(&self) -> UpdateParameterModel {
        self@
    }
}

/// The parameters of an update of the base stack that changes the list of
/// trusted roles and nothing else.
pub open spec fn role_updates(accounts: Seq<char>) -> Seq<UpdateParameterModel> {
    seq![
        UpdateParameterModel { key: "AmiId"@, value: None },
        UpdateParameterModel { key: "SSHKeyName"@, value: None },
        UpdateParameterModel { key: "AccountRoles"@, value: Some(accounts) },
    ]
}

/// The parameters of an update of the base stack that sets the list of
/// trusted roles to `accounts` and keeps the machine image and the key pair
/// as they are.
pub fn update_stack(accounts: String) -> (updates: Vec<UpdateParameter>)
    ensures
        updates.deep_view() == role_updates(accounts@),
{
    let mut updates: Vec<UpdateParameter> = Vec::new();
    updates.push(UpdateParameter { key: String::from_str("AmiId"), value: None });
    updates.push(UpdateParameter { key: String::from_str("SSHKeyName"), value: None });
    updates.push(UpdateParameter { key: String::from_str("AccountRoles"), value: Some(accounts) });
    assert(updates.deep_view() == role_updates(accounts@));
    updates
}

/// One entry of a stack's event history. The provider may leave either
/// field out.
#[derive(Debug, PartialEq)]
pub struct StackEvent {
    pub logical_resource_id: Option<String>,
    pub resource_status: Option<String>,
}

/// What a [`StackEvent`] holds.
pub struct StackEventModel {
    pub logical_resource_id: Option<Seq<char>>,
    pub resource_status: Option<Seq<char>>,
}

impl View for StackEvent {
    type V = StackEventModel;

    open spec fn view(&self) -> StackEventModel {
        StackEventModel {
            logical_resource_id: self.logical_resource_id.deep_view(),
            resource_status: self.resource_status.deep_view(),
        }
    }
}

impl DeepView for StackEvent {
    type V = StackEventModel;

    open spec fn deep_view(&self) -> StackEventModel {
        self@
    }
}

/// An event that reports, for the stack itself, that a creation or an update
/// is complete.
pub open spec fn marks_completion(event: StackEventModel, stack_name: Seq<char>) -> bool {
    &&& event.logical_resource_id == Some(stack_name)
    &&& (event.resource_status == Some("CREATE_COMPLETE"@) || event.resource_status == Some(
        "UPDATE_COMPLETE"@,
    ))
}

/// A history that holds an event marking the stack's completion.
pub open spec fn completed(events: Seq<StackEventModel>, stack_name: Seq<char>) -> bool {
    exists|i: int| 0 <= i < events.len() && marks_completion(#[trigger] events[i], stack_name)
}

fn holds(field: &Option<String>, text: &str) -> (same: bool)
    ensures
        same == (field.deep_view() == Some(text@)),
{
    match field {
        Some(found) => *found == String::from_str(text),
        None => false,
    }
}

/// Whether the event history shows the named stack as complete.
pub fn has_stack_completed(events: &Vec<StackEvent>, stack_name: &String) -> (done: bool)
    ensures
        done == completed(events.deep_view(), stack_name@),
{
    let mut i: usize = 0;
    while i < events.len()
        invariant
            0 <= i <= events@.len(),
            forall|j: int| 0 <= j < i ==> !marks_completion(#[trigger] events.deep_view()[j], stack_name@),
        decreases events@.len() - i,
    {
        let event = &events[i];
        assert(events.deep_view()[i as int] == event@);
        if holds(&event.logical_resource_id, stack_name.as_str()) && (holds(
            &event.resource_status,
            "CREATE_COMPLETE",
        ) || holds(&event.resource_status, "UPDATE_COMPLETE")) {
            return true;
        }
        i = i + 1;
    }
    false
}

/// A stack as the provider describes it: its name and what it puts out.
#[derive(Debug, PartialEq)]
pub struct StackDescription {
    pub stack_name: String,
    pub outputs: Option<Vec<StackOutput>>,
}

/// A value that a stack puts out under a key. The provider may leave either
/// out.
#[derive(Debug, PartialEq)]
pub struct StackOutput {
    pub output_key: Option<String>,
    pub output_value: Option<String>,
}

/// What a [`StackOutput`] holds.
pub struct StackOutputModel {
    pub output_key: Option<Seq<char>>,
    pub output_value: Option<Seq<char>>,
}

/// What a [`StackDescription`] holds.
pub struct StackDescriptionModel {
    pub stack_name: Seq<char>,
    pub outputs: Option<Seq<StackOutputModel>>,
}

impl View for StackOutput {
    type V = StackOutputModel;

    open spec fn view(&self) -> StackOutputModel {
        StackOutputModel {
            output_key: self.output_key.deep_view(),
            output_value: self.output_value.deep_view(),
        }
    }
}

impl DeepView for StackOutput {
    type V = StackOutputModel;

    open spec fn deep_view(&self) -> StackOutputModel {
        self@
    }
}

impl View for StackDescription {
    type V = StackDescriptionModel;

    open spec fn view(&self) -> StackDescriptionModel {
        StackDescriptionModel {
            stack_name: self.stack_name@,
            outputs: self.outputs.deep_view(),
        }
    }
}

impl DeepView for StackDescription {
    type V = StackDescriptionModel;

    open spec fn deep_view(&self) -> StackDescriptionModel {
        self@
    }
}

/// The first of the stacks that goes by `name`, if there is one.
pub open spec fn stack_named(stacks: Seq<StackDescriptionModel>, name: Seq<char>) -> Option<
    StackDescriptionModel,
>
    decreases stacks.len(),
{
    if stacks.len() == 0 {
        None
    } else if stacks[0].stack_name == name {
        Some(stacks[0])
    } else {
        stack_named(stacks.drop_first(), name)
    }
}

/// The first of the outputs that stands under `key`, if there is one.
pub open spec fn output_keyed(outputs: Seq<StackOutputModel>, key: Seq<char>) -> Option<
    StackOutputModel,
>
    decreases outputs.len(),
{
    if outputs.len() == 0 {
        None
    } else if outputs[0].output_key == Some(key) {
        Some(outputs[0])
    } else {
        output_keyed(outputs.drop_first(), key)
    }
}

/// The address that the base stack puts out: the value of the first output
/// under the key `InstanceIP` of the first stack named `container-builder`.
/// There is none where that stack is not described, has no outputs, has
/// none under that key, or has one without a value.
pub open spec fn stack_address(stacks: Seq<StackDescriptionModel>) -> Option<Seq<char>> {
    match stack_named(stacks, "container-builder"@) {
        None => None,
        Some(stack) => match stack.outputs {
            None => None,
            Some(outputs) => match output_keyed(outputs, "InstanceIP"@) {
                None => None,
                Some(output) => output.output_value,
            },
        },
    }
}

fn find_output(outputs: &Vec<StackOutput>, key: &str) -> (found: Option<usize>)
    ensures
        match found {
            Some(at) => at < outputs@.len() && output_keyed(outputs.deep_view(), key@) == Some(
                outputs@[at as int]@,
            ),
            None => output_keyed(outputs.deep_view(), key@) is None,
        },
{
    let ghost all = outputs.deep_view();
    let mut i: usize = 0;
    proof {
        assert(all.skip(0) == all);
    }
    while i < outputs.len()
        invariant
            0 <= i <= outputs@.len(),
            all == outputs.deep_view(),
            output_keyed(all, key@) == output_keyed(all.skip(i as int), key@),
        decreases outputs@.len() - i,
    {
        proof {
            assert(all.skip(i as int)[0] == outputs@[i as int]@);
            assert(all.skip(i as int).drop_first() == all.skip(i + 1));
        }
        if holds(&outputs[i].output_key, key) {
            return Some(i);
        }
        i = i + 1;
    }
    None
}

/// Reads the address of the build host out of a description of stacks.
pub fn get_stack_ip_address(stacks: &Vec<StackDescription>) -> (address: Option<String>)
    ensures
        address.deep_view() == stack_address(stacks.deep_view()),
{
    let ghost all = stacks.deep_view();
    let name = String::from_str("container-builder");
    let mut i: usize = 0;
    proof {
        assert(all.skip(0) == all);
    }
    while i < stacks.len()
        invariant
            0 <= i <= stacks@.len(),
            all == stacks.deep_view(),
            name@ == "container-builder"@,
            stack_named(all, name@) == stack_named(all.skip(i as int), name@),
        decreases stacks@.len() - i,
    {
        proof {
            assert(all.skip(i as int)[0] == stacks@[i as int]@);
            assert(all.skip(i as int).drop_first() == all.skip(i + 1));
        }
        if stacks[i].stack_name == name {
            return match &stacks[i].outputs {
                None => None,
                Some(outputs) => match find_output(outputs, "InstanceIP") {
                    None => None,
                    Some(at) => outputs[at].output_value.clone(),
                },
            };
        }
        i = i + 1;
    }
    None
}

/// Time that has gone by, as whole seconds and the nanoseconds beyond them.
#[derive(Debug, Clone, Copy, PartialEq, Eq, Structural)]
pub struct Elapsed {
    pub secs: u64,
    pub nanos: u32,
}

impl Elapsed {
    /// More than `budget` whole seconds have gone by.
    pub open spec fn spec_exceeds(self, budget: u64) -> bool {
        self.secs > budget || (self.secs == budget && self.nanos > 0)
    }

    #[verifier::when_used_as_spec(spec_exceeds)]
    pub fn exceeds(self, budget: u64) -> (over: bool)
        ensures
            over == self.spec_exceeds(budget),
    {
        self.secs > budget || (self.secs == budget && self.nanos > 0)
    }
}

} // verus!
