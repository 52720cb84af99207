use vstd::prelude::*;

use crate::error::{MXError, MXResult};
use crate::registry::Registry;

verus! {

/// Staged construction of a composed graph node: an operator name, the
/// input nodes (all positional, or all keyed), and string parameters. `H` is
/// the engine's handle of an input node.
pub struct SymbolBuilder<H> {
    pub operator_name: String,
    pub input_keys: Vec<String>,
    pub input_values: Vec<H>,
    pub param_keys: Vec<String>,
    pub param_values: Vec<String>,
}

/// What the engine's two calls are given: the operator's creator, the
/// number of parameters, the number of inputs, and whether the inputs are
/// passed with their keys.
pub struct SymbolPlan<C> {
    pub creator: C,
    pub num_params: u32,
    pub num_inputs: u32,
    pub keyed: bool,
}

impl<H> SymbolBuilder<H> {
    /// Every parameter key has its value.
    pub open spec fn wf(&self) -> bool {
        self.param_keys@.len() == self.param_values@.len()
    }

    /// The inputs are all keyed, or all positional.
    pub open spec fn inputs_consistent(&self) -> bool {
        self.input_keys@.len() == 0 || self.input_keys@.len() == self.input_values@.len()
    }

    pub fn new(operator_name: &str) -> (r: Self)
        ensures
            r.wf(),
            r.operator_name@ == operator_name@,
            r.input_keys@.len() == 0,
            r.input_values@.len() == 0,
            r.param_keys@.len() == 0,
            r.param_values@.len() == 0,
    {
        SymbolBuilder {
            operator_name: operator_name.to_owned(),
            input_keys: Vec::new(),
            input_values: Vec::new(),
            param_keys: Vec::new(),
            param_values: Vec::new(),
        }
    }

    /// Add an input under a key.
    pub fn add_input(&mut self, key: &str, value: H)
        ensures
            final(self).operator_name == old(self).operator_name,
            final(self).input_keys@.len() == old(self).input_keys@.len() + 1,
            final(self).input_keys@.drop_last() == old(self).input_keys@,
            final(self).input_keys@.last()@ == key@,
            final(self).input_values@ == old(self).input_values@.push(value),
            final(self).param_keys@ == old(self).param_keys@,
            final(self).param_values@ == old(self).param_values@,
    {
        self.input_keys.push(key.to_owned());
        self.input_values.push(value);
        assert(self.input_keys@.drop_last() =~= old(self).input_keys@);
    }

    /// Replace all inputs by positional ones.
    pub fn set_input(&mut self, values: Vec<H>)
        ensures
            final(self).operator_name == old(self).operator_name,
            final(self).input_keys@.len() == 0,
            final(self).input_values@ == values@,
            final(self).param_keys@ == old(self).param_keys@,
            final(self).param_values@ == old(self).param_values@,
    {
        self.input_keys.clear();
        self.input_values = values;
    }

    /// Add a string parameter.
    pub fn add_param(&mut self, key: &str, value: &str)
        requires
            old(self).wf(),
        ensures
            final(self).wf(),
            final(self).operator_name == old(self).operator_name,
            final(self).input_keys@ == old(self).input_keys@,
            final(self).input_values@ == old(self).input_values@,
            final(self).param_keys@.drop_last() == old(self).param_keys@,
            final(self).param_keys@.last()@ == key@,
            final(self).param_values@.drop_last() == old(self).param_values@,
            final(self).param_values@.last()@ == value@,
    {
        self.param_keys.push(key.to_owned());
        self.param_values.push(value.to_owned());
        assert(self.param_keys@.drop_last() =~= old(self).param_keys@);
        assert(self.param_values@.drop_last() =~= old(self).param_values@);
    }

    /// Resolve the operator against the registry and check the inputs. An
    /// operator the registry does not know is a recoverable error, as are
    /// mixed inputs and counts the engine's `unsigned int` cannot carry.
    pub fn plan<C: Copy>(&self, registry: &Registry<C>) -> (r: MXResult<SymbolPlan<C>>)
        requires
            self.wf(),
            registry.wf(),
        ensures
            r is Ok <==> registry@.contains_key(self.operator_name@) && self.inputs_consistent()
                && self.param_keys@.len() <= u32::MAX && self.input_values@.len() <= u32::MAX,
            !registry@.contains_key(self.operator_name@) ==> (r matches Err(
                MXError::UnknownOperator(n),
            ) && n@ == self.operator_name@),
            registry@.contains_key(self.operator_name@) && !self.inputs_consistent() ==> r matches Err(
                MXError::MixedInputs,
            ),
            r matches Ok(p) ==> {
                &&& p.creator == registry@[self.operator_name@]
                &&& p.num_params == self.param_keys@.len()
                &&& p.num_inputs == self.input_values@.len()
                &&& p.keyed == (self.input_keys@.len() > 0)
            },
    {
        let creator = match registry.get(&self.operator_name) {
            Some(c) => *c,
            None => {
                return Err(MXError::UnknownOperator(self.operator_name.clone()));
            },
        };
        let n_keys = self.input_keys.len();
        if n_keys != 0 && n_keys != self.input_values.len() {
            return Err(MXError::MixedInputs);
        }
        if self.param_keys.len() > u32::MAX as usize || self.input_values.len() > u32::MAX as usize {
            return Err(MXError::OutOfRange);
        }
        Ok(
            SymbolPlan {
                creator: creator,
                num_params: self.param_keys.len() as u32,
                num_inputs: self.input_values.len() as u32,
                keyed: n_keys > 0,
            },
        )
    }
}

/// Where the two-phase protocol stands: nothing done, a node instantiated
/// but not composed, a node composed, or given up.
pub enum ComposeStage<S> {
    Start,
    Created(S),
    Finished(S),
    Failed,
}

/// What the engine answered to the last call.
pub enum ComposeEvent<S> {
    CreateOk(S),
    CreateErr,
    ComposeOk,
    ComposeErr,
}

/// What to do next: compose the instantiated node, hand the composed node
/// to the caller, release the instantiated node and report the failure,
/// report the failure, or nothing (the protocol has ended).
pub enum ComposeAction<S> {
    Compose(S),
    Yield(S),
    Release(S),
    Fail,
    Ignore,
}

pub open spec fn spec_compose_step<S>(stage: ComposeStage<S>, event: ComposeEvent<S>) -> (
    ComposeStage<S>,
    ComposeAction<S>,
) {
    match stage {
        ComposeStage::Start => match event {
            ComposeEvent::CreateOk(h) => (ComposeStage::Created(h), ComposeAction::Compose(h)),
            _ => (ComposeStage::Failed, ComposeAction::Fail),
        },
        ComposeStage::Created(h) => match event {
            ComposeEvent::ComposeOk => (ComposeStage::Finished(h), ComposeAction::Yield(h)),
            _ => (ComposeStage::Failed, ComposeAction::Release(h)),
        },
        ComposeStage::Finished(h) => (ComposeStage::Finished(h), ComposeAction::Ignore),
        ComposeStage::Failed => (ComposeStage::Failed, ComposeAction::Ignore),
    }
}

/// One decision of the create-then-compose protocol.
pub fn compose_step<S: Copy>(stage: ComposeStage<S>, event: ComposeEvent<S>) -> (r: (
    ComposeStage<S>,
    ComposeAction<S>,
))
    ensures
        r == spec_compose_step(stage, event),
{
    match stage {
        ComposeStage::Start => match event {
            ComposeEvent::CreateOk(h) => (ComposeStage::Created(h), ComposeAction::Compose(h)),
            _ => (ComposeStage::Failed, ComposeAction::Fail),
        },
        ComposeStage::Created(h) => match event {
            ComposeEvent::ComposeOk => (ComposeStage::Finished(h), ComposeAction::Yield(h)),
            _ => (ComposeStage::Failed, ComposeAction::Release(h)),
        },
        ComposeStage::Finished(h) => (ComposeStage::Finished(h), ComposeAction::Ignore),
        ComposeStage::Failed => (ComposeStage::Failed, ComposeAction::Ignore),
    }
}

/// No node reaches the caller before it is composed: a node is handed out
/// only on the engine's success at composing the node it instantiated. A
/// node that was instantiated is either handed out or released, whatever
/// the engine answers next.
pub proof fn lemma_no_partial_node<S>(stage: ComposeStage<S>, event: ComposeEvent<S>)
    ensures
        spec_compose_step(stage, event).1 matches ComposeAction::Yield(h) ==> stage == ComposeStage::<
            S,
        >::Created(h) && event is ComposeOk,
        stage matches ComposeStage::Created(h) ==> (spec_compose_step(stage, event).1
            == ComposeAction::<S>::Yield(h) || spec_compose_step(stage, event).1
            == ComposeAction::<S>::Release(h)),
{
}

} // verus!
