//! The testnet state machine's hook plan: the ordered list of named
//! hooks a controller registers and later runs. Registration and
//! ordering are decided here; the hooks' bodies (network actions,
//! awaited futures) are carried out by the surrounding runner, which
//! walks the plan in registration order.

use vstd::prelude::*;

verus! {

/// What a registered hook does when its turn comes.
#[derive(PartialEq, Eq, Structural, Clone, Copy, Debug)]
pub enum HookKind {
    /// A fire-and-forget action.
    Action,
    /// A pure check of the testnet's state.
    Check,
    /// An action whose outcome is itself checked.
    CheckedAction,
}

/// One registered hook: its display name and kind. For a block check,
/// the block number it concerns.
pub struct HookEntry {
    pub name: &'static str,
    pub kind: HookKind,
    pub block_number: Option<u64>,
}

/// The ordered hook plan of a testnet controller run.
pub struct StateMachineTestnet {
    hooks: Vec<HookEntry>,
}

impl StateMachineTestnet {
    /// The registered hooks in registration order, for contracts.
    pub closed spec fn spec_hooks(self) -> Seq<HookEntry> {
        self.hooks@
    }

    /// An empty plan.
    pub fn new() -> (r: Self)
        ensures
            r.spec_hooks().len() == 0,
    {
        StateMachineTestnet { hooks: Vec::new() }
    }

    /// Registers a named check.
    pub fn add_check(&mut self, check_name: &'static str)
        ensures
            final(self).spec_hooks() == old(self).spec_hooks().push(
                HookEntry { name: check_name, kind: HookKind::Check, block_number: None },
            ),
    {
        self.hooks.push(
            HookEntry { name: check_name, kind: HookKind::Check, block_number: None },
        );
    }

    /// Registers a named fire-and-forget action.
    pub fn add_action(&mut self, action_name: &'static str)
        ensures
            final(self).spec_hooks() == old(self).spec_hooks().push(
                HookEntry { name: action_name, kind: HookKind::Action, block_number: None },
            ),
    {
        self.hooks.push(
            HookEntry { name: action_name, kind: HookKind::Action, block_number: None },
        );
    }

    /// Registers a named checked action.
    pub fn add_checked_action(&mut self, checked_action_name: &'static str)
        ensures
            final(self).spec_hooks() == old(self).spec_hooks().push(
                HookEntry {
                    name: checked_action_name,
                    kind: HookKind::CheckedAction,
                    block_number: None,
                },
            ),
    {
        self.hooks.push(
            HookEntry {
                name: checked_action_name,
                kind: HookKind::CheckedAction,
                block_number: None,
            },
        );
    }

    /// Registers a block-number check.
    pub fn add_block_check(&mut self, check_name: &'static str, block_number: u64)
        ensures
            final(self).spec_hooks() == old(self).spec_hooks().push(
                HookEntry {
                    name: check_name,
                    kind: HookKind::Check,
                    block_number: Some(block_number),
                },
            ),
    {
        self.hooks.push(
            HookEntry {
                name: check_name,
                kind: HookKind::Check,
                block_number: Some(block_number),
            },
        );
    }

    /// Hands the plan over for running: the hooks in registration
    /// order, leaving the plan empty, exactly as the runner consumes it.
    pub fn take_hooks(&mut self) -> (r: Vec<HookEntry>)
        ensures
            r@ == old(self).spec_hooks(),
            final(self).spec_hooks().len() == 0,
    {
        let mut out: Vec<HookEntry> = Vec::new();
        drain_into(&mut self.hooks, &mut out);
        out
    }
}

/// Moves every entry of `src_list` onto the end of `dst`, in order.
fn drain_into(src_list: &mut Vec<HookEntry>, dst: &mut Vec<HookEntry>)
    ensures
        final(dst)@ == old(dst)@ + old(src_list)@,
        final(src_list)@.len() == 0,
{
    let ghost orig = src_list@;
    let mut i: usize = 0;
    while i < src_list.len()
        invariant
            i <= src_list@.len(),
            src_list@ == orig,
            dst@ == old(dst)@ + orig.take(i as int),
        decreases src_list.len() - i,
    {
        let entry = HookEntry {
            name: src_list[i].name,
            kind: src_list[i].kind,
            block_number: src_list[i].block_number,
        };
        dst.push(entry);
        proof {
            assert(dst@ =~= old(dst)@ + orig.take(i + 1));
        }
        i += 1;
    }
    src_list.clear();
    proof {
        assert(orig.take(orig.len() as int) =~= orig);
    }
}

/// A controller that can schedule a check of a given block number.
pub trait WithCheck {
    /// The hook plan the controller schedules onto, for contracts.
    spec fn spec_plan(&self) -> Seq<HookEntry>;

    /// Registers a check, named "check block", that the block with this
    /// number was produced: the plan gains exactly that one entry.
    fn check_block(&mut self, block_number: u64)
        ensures
            final(self).spec_plan() == old(self).spec_plan().push(
                HookEntry {
                    name: "check block",
                    kind: HookKind::Check,
                    block_number: Some(block_number),
                },
            ),
    ;
}

/// The devnet controller: a hook plan it schedules checks onto.
pub struct DevnetStateMachine {
    pub state_machine: StateMachineTestnet,
}

impl WithCheck for DevnetStateMachine {
    open spec fn spec_plan(&self) -> Seq<HookEntry> {
        self.state_machine.spec_hooks()
    }

    fn check_block(&mut self, block_number: u64) {
        self.state_machine.add_block_check("check block", block_number);
    }
}

} // verus!
