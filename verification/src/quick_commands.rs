//! Calls of the quick-command store, and the search over quick commands.
use vstd::prelude::*;

verus! {

/// The texts of a quick command that a search looks at.
#[derive(Debug, PartialEq)]
pub struct QuickCommand {
    pub label: String,
    pub command: String,
}

/// A snapshot of the quick commands, in their order.
#[derive(Debug, PartialEq)]
pub struct QuickCommandsConfig {
    pub commands: Vec<QuickCommand>,
}

/// Take a snapshot of the configuration.
#[derive(Debug, PartialEq)]
pub struct TakeSnapshot;

/// Replace and persist the configuration.
#[derive(Debug, PartialEq)]
pub struct SaveAll<C> {
    pub config: C,
}

/// Insert or update a command, and add its category where one is given.
#[derive(Debug, PartialEq)]
pub struct Upsert<Q, K> {
    pub command: Q,
    pub new_category: Option<K>,
}

/// Count one more use of a command.
#[derive(Debug, PartialEq)]
pub struct IncrementUseCount {
    pub id: String,
}

/// Import commands from a file.
#[derive(Debug, PartialEq)]
pub struct ImportFromFile<S> {
    pub file_path: String,
    pub source: S,
}

/// A fuzzy search over pairs of a label and a command.
#[derive(Debug, PartialEq)]
pub struct FuzzySearch<'a> {
    pub items: Vec<(&'a str, &'a str)>,
    pub pattern: &'a str,
    /// What the results are said to be.
    pub kind: &'a str,
    pub limit: usize,
    pub min_length: Option<usize>,
    pub max_length: Option<usize>,
}

/// `items` are the label and the command of each of `commands`, in their order.
pub open spec fn items_of(items: Seq<(&str, &str)>, commands: Seq<QuickCommand>) -> bool {
    &&& items.len() == commands.len()
    &&& forall|i: int|
        #![trigger items[i]]
        0 <= i < commands.len() ==> items[i].0@ == commands[i].label@ && items[i].1@
            == commands[i].command@
}

impl QuickCommandsConfig {
    /// The label and the command of each quick command, in their order.
    pub fn search_items(&self) -> (items: Vec<(&str, &str)>)
        ensures
            items_of(items@, self.commands@),
            items@.len() == self.commands@.len(),
            forall|i: int|
                #![trigger items@[i]]
                0 <= i < items@.len() ==> items@[i].0@ == self.commands@[i].label@
                    && items@[i].1@ == self.commands@[i].command@,
    {
        let mut items: Vec<(&str, &str)> = Vec::new();
        let mut i: usize = 0;
        while i < self.commands.len()
            invariant
                i <= self.commands.len(),
                items_of(items@, self.commands@.take(i as int)),
            decreases self.commands.len() - i,
        {
            let command = &self.commands[i];
            items.push((command.label.as_str(), command.command.as_str()));
            i += 1;
        }
        proof {
            assert(self.commands@.take(i as int) =~= self.commands@);
        }
        items
    }
}

/// A search looks at every quick command, at its label and its command and at nothing else:
/// there are as many items as commands, and the item at each place holds the two texts of the
/// command at that place.
pub proof fn a_search_looks_at_every_command(
    items: Seq<(&str, &str)>,
    commands: Seq<QuickCommand>,
    i: int,
)
    requires
        items_of(items, commands),
        0 <= i < commands.len() || 0 <= i < items.len(),
    ensures
        i < commands.len(),
        i < items.len(),
        items[i].0@ == commands[i].label@,
        items[i].1@ == commands[i].command@,
{
}

} // verus!
