//! What can go wrong while flags are resolved into settings.

use crate::flags::Flag;
use vstd::prelude::*;
use vstd::string::*;

verus! {

/// Why a category of the settings could not be resolved.
#[derive(Debug, PartialEq, Eq)]
pub enum DeductionError {
    /// A flag came with a string that is none of its legal values.
    BadArgument { flag: Flag, given: String },
    /// A flag that needs a number came with a string that is not one.
    NotANumber { flag: Flag, given: String },
    /// Two display flags ask for contradictory things.
    Conflict { first: Flag, second: Flag },
}

/// The mathematical value of a [`DeductionError`].
pub enum DeductionErrorView {
    BadArgument { flag: Flag, given: Seq<char> },
    NotANumber { flag: Flag, given: Seq<char> },
    Conflict { first: Flag, second: Flag },
}

impl View for DeductionError {
    type V = DeductionErrorView;

    open spec fn view(&self) -> DeductionErrorView {
        match self {
            DeductionError::BadArgument { flag, given } => DeductionErrorView::BadArgument {
                flag: *flag,
                given: given@,
            },
            DeductionError::NotANumber { flag, given } => DeductionErrorView::NotANumber {
                flag: *flag,
                given: given@,
            },
            DeductionError::Conflict { first, second } => DeductionErrorView::Conflict {
                first: *first,
                second: *second,
            },
        }
    }
}

/// The mathematical values of a sequence of errors, in order.
pub open spec fn error_views(errors: Seq<DeductionError>) -> Seq<DeductionErrorView> {
    errors.map_values(|e: DeductionError| e@)
}

/// Whether an outcome is the one that a specification asks for: the same
/// value on success, an error with the same mathematical value on failure.
pub open spec fn agrees<T>(
    outcome: Result<T, DeductionError>,
    expected: Result<T, DeductionErrorView>,
) -> bool {
    match outcome {
        Ok(value) => expected == Ok::<T, DeductionErrorView>(value),
        Err(error) => expected == Err::<T, DeductionErrorView>(error@),
    }
}

impl DeductionErrorView {
    /// The flag that the error is about; of two conflicting flags, the first.
    pub open spec fn flag(self) -> Flag {
        match self {
            DeductionErrorView::BadArgument { flag, .. } => flag,
            DeductionErrorView::NotANumber { flag, .. } => flag,
            DeductionErrorView::Conflict { first, .. } => first,
        }
    }

    /// The words that the flag of the error accepts; none unless the error
    /// is about a word that the flag does not accept.
    pub open spec fn legal_values(self) -> Seq<Seq<char>> {
        match self {
            DeductionErrorView::BadArgument { flag, .. } => spec_legal_values(flag),
            _ => Seq::empty(),
        }
    }

    /// The sentence that says what is wrong.
    pub open spec fn message(self) -> Seq<char> {
        match self {
            DeductionErrorView::BadArgument { flag, given } => "Option --"@
                + flag.spec_long_name() + " has no \""@ + given + "\" setting (choices: "@
                + spec_join(spec_legal_values(flag), ", "@) + ")"@,
            DeductionErrorView::NotANumber { flag, given } => "Option --"@
                + flag.spec_long_name() + " needs a number, not \""@ + given + "\""@,
            DeductionErrorView::Conflict { first, second } => "Option --"@
                + first.spec_long_name() + " conflicts with option --"@
                + second.spec_long_name(),
        }
    }
}

impl DeductionError {
    /// Reports a string that is none of the legal values of `flag`.
    pub fn bad_argument(flag: Flag, given: &str) -> (error: DeductionError)
        ensures
            error@ == (DeductionErrorView::BadArgument { flag, given: given@ }),
    {
        DeductionError::BadArgument { flag, given: given.to_owned() }
    }

    /// Reports a string that should have been a number for `flag`.
    pub fn not_a_number(flag: Flag, given: &str) -> (error: DeductionError)
        ensures
            error@ == (DeductionErrorView::NotANumber { flag, given: given@ }),
    {
        DeductionError::NotANumber { flag, given: given.to_owned() }
    }

    /// The flag that the error is about; of two conflicting flags, the first.
    pub fn flag(&self) -> (flag: Flag)
        ensures
            flag == self@.flag(),
    {
        match self {
            DeductionError::BadArgument { flag, .. } => *flag,
            DeductionError::NotANumber { flag, .. } => *flag,
            DeductionError::Conflict { first, .. } => *first,
        }
    }

    /// The words that the flag of the error accepts; none unless the error
    /// is about a word that the flag does not accept.
    pub fn legal_values(&self) -> (words: Vec<&'static str>)
        ensures
            words@.map_values(|word: &'static str| word@) == self@.legal_values(),
    {
        match self {
            DeductionError::BadArgument { flag, .. } => legal_values(*flag),
            _ => {
                let none: Vec<&'static str> = Vec::new();
                assert(none@.map_values(|word: &'static str| word@) =~= Seq::<
                    Seq<char>,
                >::empty());
                none
            },
        }
    }

    /// Says in a sentence what is wrong.
    pub fn message(&self) -> (message: String)
        ensures
            message@ == self@.message(),
    {
        let mut message = String::from_str("Option --");
        match self {
            DeductionError::BadArgument { flag, given } => {
                message.append(flag.long_name());
                message.append(" has no \"");
                message.append(given.as_str());
                message.append("\" setting (choices: ");
                let choices = legal_values(*flag);
                let listed = join(&choices, ", ");
                message.append(listed.as_str());
                message.append(")");
            },
            DeductionError::NotANumber { flag, given } => {
                message.append(flag.long_name());
                message.append(" needs a number, not \"");
                message.append(given.as_str());
                message.append("\"");
            },
            DeductionError::Conflict { first, second } => {
                message.append(first.long_name());
                message.append(" conflicts with option --");
                message.append(second.long_name());
            },
        }
        message
    }
}

/// The words that a flag accepts as its value, for the flags whose value is
/// one of a fixed set of words; empty for every other flag.
pub open spec fn spec_legal_values(flag: Flag) -> Seq<Seq<char>> {
    match flag {
        Flag::Color | Flag::Icons => seq!["always"@, "auto"@, "never"@],
        Flag::Sort => seq![
            "name"@,
            "Name"@,
            "extension"@,
            "Extension"@,
            "size"@,
            "type"@,
            "modified"@,
            "accessed"@,
            "created"@,
            "inode"@,
            "none"@,
            "date"@,
            "time"@,
            "old"@,
            "new"@,
        ],
        Flag::Time => seq!["modified"@, "accessed"@, "created"@],
        _ => Seq::empty(),
    }
}

/// The words that a flag accepts as its value.
pub fn legal_values(flag: Flag) -> (words: Vec<&'static str>)
    ensures
        words@.map_values(|word: &'static str| word@) == spec_legal_values(flag),
{
    let words: Vec<&'static str> = match flag {
        Flag::Color | Flag::Icons => vec!["always", "auto", "never"],
        Flag::Sort => vec![
            "name",
            "Name",
            "extension",
            "Extension",
            "size",
            "type",
            "modified",
            "accessed",
            "created",
            "inode",
            "none",
            "date",
            "time",
            "old",
            "new",
        ],
        Flag::Time => vec!["modified", "accessed", "created"],
        _ => Vec::new(),
    };
    assert(words@.map_values(|word: &'static str| word@) =~= spec_legal_values(flag));
    words
}

/// The texts one after the other, with the separator between each two.
pub open spec fn spec_join(parts: Seq<Seq<char>>, separator: Seq<char>) -> Seq<char>
    decreases parts.len(),
{
    if parts.len() == 0 {
        Seq::empty()
    } else if parts.len() == 1 {
        parts[0]
    } else {
        spec_join(parts.drop_last(), separator) + separator + parts.last()
    }
}

/// Writes the texts one after the other, with the separator between each
/// two.
pub fn join(parts: &Vec<&'static str>, separator: &str) -> (joined: String)
    ensures
        joined@ == spec_join(parts@.map_values(|part: &'static str| part@), separator@),
{
    let ghost texts = parts@.map_values(|part: &'static str| part@);
    let mut joined = String::new();
    let n = parts.len();
    let mut i: usize = 0;
    assert(texts.take(0) =~= Seq::<Seq<char>>::empty());
    while i < n
        invariant
            n == parts@.len(),
            i <= n,
            texts == parts@.map_values(|part: &'static str| part@),
            joined@ == spec_join(texts.take(i as int), separator@),
        decreases n - i,
    {
        proof {
            assert(texts.take(i + 1).drop_last() =~= texts.take(i as int));
            assert(texts.take(i + 1).last() == parts@[i as int]@);
        }
        if i > 0 {
            joined.append(separator);
        }
        joined.append(parts[i]);
        proof {
            if i == 0 {
                assert(joined@ =~= texts.take(1)[0]);
            }
        }
        i = i + 1;
    }
    assert(texts.take(n as int) =~= texts);
    joined
}

} // verus!
