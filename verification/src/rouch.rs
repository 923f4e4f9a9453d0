//! The program's two arguments, and the replicator that they ask for.

use vstd::prelude::*;
use crate::database::Database;
use crate::error::{Error, ErrorModel};
use crate::locator::{locate, located};
use crate::replicator::Replicator;
use crate::text::Text;

verus! {

/// The arguments of the program: the addresses of the source database and
/// of the target database, as they were typed.
#[derive(Debug, PartialEq, Eq)]
pub struct Args {
    source: String,
    target: String,
}

impl Args {
    /// The arguments `source` and `target`.
    pub fn new(source: String, target: String) -> (args: Self)
        ensures
            args.source_model() == source@,
            args.target_model() == target@,
    {
        Args { source, target }
    }

    /// The source as it was typed.
    pub closed spec fn source_model(&self) -> Text {
        self.source@
    }

    /// The target as it was typed.
    pub closed spec fn target_model(&self) -> Text {
        self.target@
    }

    /// The source as it was typed.
    pub fn source(&self) -> (source: &String)
        ensures
            source@ == self.source_model(),
    {
        &self.source
    }

    /// The target as it was typed.
    pub fn target(&self) -> (target: &String)
        ensures
            target@ == self.target_model(),
    {
        &self.target
    }
}

/// The program: a replication that is asked for by arguments.
#[derive(Debug, PartialEq, Eq)]
pub struct Rouch {
    args: Args,
}

/// The addresses of the two databases that arguments name, or the first of
/// the two texts that is no address.
pub open spec fn addressed(source: Text, target: Text) -> Result<(Text, Text), ErrorModel> {
    match located(source) {
        None => Err(ErrorModel::Address(source)),
        Some(source_url) => match located(target) {
            None => Err(ErrorModel::Address(target)),
            Some(target_url) => Ok((source_url, target_url)),
        },
    }
}

impl Rouch {
    /// The program with its arguments.
    pub fn new(args: Args) -> (rouch: Self)
        ensures
            rouch.args() == args,
    {
        Self { args }
    }

    /// The arguments of the program.
    pub closed spec fn args(&self) -> Args {
        self.args
    }

    /// The replicator between the two databases that the arguments name; an
    /// argument that is no address is an error, the source's first.
    pub fn replicator(&self) -> (replicator: Result<Replicator, Error>)
        ensures
            match replicator {
                Ok(replicator) => addressed(
                    self.args().source_model(),
                    self.args().target_model(),
                ) == Ok::<(Text, Text), ErrorModel>(
                    (replicator.source_model(), replicator.target_model()),
                ),
                Err(error) => addressed(self.args().source_model(), self.args().target_model())
                    == Err::<(Text, Text), ErrorModel>(error@),
            },
    {
        let source = match locate(self.args.source.as_str()) {
            Some(url) => Database::new(url),
            None => {
                return Err(Error::Address(self.args.source.clone()));
            },
        };
        let target = match locate(self.args.target.as_str()) {
            Some(url) => Database::new(url),
            None => {
                return Err(Error::Address(self.args.target.clone()));
            },
        };
        Ok(Replicator::new(source, target))
    }
}

} // verus!
