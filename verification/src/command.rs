//! The program that opens a link, with or without arguments.

use crate::raw::{field, RawValue, RawView};
use vstd::prelude::*;

verus! {

/// A program to run: its name alone, or its name and the arguments to hand it.
#[derive(Clone, Debug, PartialEq, Eq)]
pub enum CommandWrapper {
    Just(String),
    WithArgs { program: String, args: Vec<String> },
}

/// The mathematical value of a [`CommandWrapper`].
pub enum CommandView {
    Just(Seq<char>),
    WithArgs { program: Seq<char>, args: Seq<Seq<char>> },
}

impl View for CommandWrapper {
    type V = CommandView;

    open spec fn view(&self) -> CommandView {
        match self {
            CommandWrapper::Just(program) => CommandView::Just(program@),
            CommandWrapper::WithArgs { program, args } => CommandView::WithArgs {
                program: program@,
                args: args@.map_values(|arg: String| arg@),
            },
        }
    }
}

impl CommandView {
    /// The name of the program, whichever shape the command has.
    pub open spec fn program(self) -> Seq<char> {
        match self {
            CommandView::Just(program) => program,
            CommandView::WithArgs { program, .. } => program,
        }
    }

    /// The arguments, none for a bare program name.
    pub open spec fn args(self) -> Seq<Seq<char>> {
        match self {
            CommandView::Just(_) => Seq::empty(),
            CommandView::WithArgs { args, .. } => args,
        }
    }
}

/// Whether every item of a sequence is a text.
pub open spec fn all_text(items: Seq<RawView>) -> bool {
    forall|i: int| 0 <= i < items.len() ==> items[i] is Text
}

/// The texts that a sequence of texts holds.
pub open spec fn texts(items: Seq<RawView>) -> Seq<Seq<char>> {
    Seq::new(items.len(), |i: int| items[i]->Text_0)
}

/// The arguments that a mapping gives under `args`: none where the key is
/// missing, the items of a sequence of texts, and no arguments at all, not
/// even an empty list, for any other value.
pub open spec fn args_of(raw: RawView) -> Option<Seq<Seq<char>>> {
    match field(raw, "args"@) {
        None => Some(Seq::empty()),
        Some(RawView::Sequence(items)) => if all_text(items) {
            Some(texts(items))
        } else {
            None
        },
        Some(_) => None,
    }
}

/// The command that a raw value describes. A text is the name of a program.
/// A mapping names the program under `program` and may list arguments, each
/// a text, under `args`. Anything else describes no command.
pub open spec fn command_of(raw: RawView) -> Option<CommandView> {
    match raw {
        RawView::Text(program) => Some(CommandView::Just(program)),
        RawView::Mapping(_) => match (field(raw, "program"@), args_of(raw)) {
            (Some(RawView::Text(program)), Some(args)) => Some(
                CommandView::WithArgs { program, args },
            ),
            _ => None,
        },
        _ => None,
    }
}

/// Copies the texts of `items`, or finds an item that is no text.
fn texts_from_raw(items: &Vec<RawValue>) -> (found: Option<Vec<String>>)
    ensures
        match found {
            Some(args) => {
                &&& forall|i: int| 0 <= i < items@.len() ==> items@[i]@ is Text
                &&& args@.map_values(|arg: String| arg@) == Seq::new(
                    items@.len(),
                    |i: int| items@[i]@->Text_0,
                )
            },
            None => exists|i: int| 0 <= i < items@.len() && !(items@[i]@ is Text),
        },
{
    let mut args: Vec<String> = Vec::new();
    let mut i: usize = 0;
    while i < items.len()
        invariant
            i <= items.len(),
            args@.len() == i,
            forall|j: int| 0 <= j < i ==> items@[j]@ is Text,
            forall|j: int| 0 <= j < i ==> args@[j]@ == items@[j]@->Text_0,
        decreases items.len() - i,
    {
        match &items[i] {
            RawValue::Text(text) => {
                args.push(text.clone());
            },
            _ => {
                return None;
            },
        }
        i += 1;
    }
    assert(args@.map_values(|arg: String| arg@) =~= Seq::new(
        items@.len(),
        |i: int| items@[i]@->Text_0,
    ));
    Some(args)
}

impl CommandWrapper {
    /// Reads a command from a raw value.
    pub fn from_raw(raw: &RawValue) -> (found: Option<CommandWrapper>)
        ensures
            match found {
                Some(command) => command_of(raw@) == Some(command@),
                None => command_of(raw@) is None,
            },
    {
        match raw {
            RawValue::Text(program) => Some(CommandWrapper::Just(program.clone())),
            RawValue::Mapping(_) => {
                let program = match raw.get("program") {
                    Some(RawValue::Text(program)) => program.clone(),
                    _ => {
                        return None;
                    },
                };
                let args = match raw.get("args") {
                    None => {
                        let args: Vec<String> = Vec::new();
                        assert(args@.map_values(|arg: String| arg@) =~= Seq::empty());
                        args
                    },
                    Some(value) => match value {
                        RawValue::Sequence(items) => {
                            proof {
                                value.lemma_items();
                            }
                            match texts_from_raw(items) {
                                Some(args) => {
                                    assert(texts(value@->Sequence_0) =~= args@.map_values(
                                        |arg: String| arg@,
                                    ));
                                    args
                                },
                                None => {
                                    return None;
                                },
                            }
                        },
                        _ => {
                            return None;
                        },
                    },
                };
                Some(CommandWrapper::WithArgs { program, args })
            },
            _ => None,
        }
    }

    /// The arguments to hand to the program, none for a bare program name.
    pub fn args(&self) -> (list: &[String])
        ensures
            list@.map_values(|arg: String| arg@) == self@.args(),
    {
        match self {
            CommandWrapper::Just(_) => {
                let list: &[String] = &[];
                assert(list@.map_values(|arg: String| arg@) =~= Seq::empty());
                list
            },
            CommandWrapper::WithArgs { args, .. } => args.as_slice(),
        }
    }

    /// The name of the program.
    pub fn program(&self) -> (name: &str)
        ensures
            name@ == self@.program(),
    {
        match self {
            CommandWrapper::Just(program) => program.as_str(),
            CommandWrapper::WithArgs { program, .. } => program.as_str(),
        }
    }
}

} // verus!
