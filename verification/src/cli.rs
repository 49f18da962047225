//! What the command line asks for, once it has been read.

use vstd::prelude::*;
use crate::error::DumpError;
use crate::range::{AddressRange, RangePolicy};

verus! {

/// The whole command line.
#[derive(Debug, PartialEq, Eq)]
pub struct Cli {
    /// Index of the GPIB board.
    pub bord_index: i32,
    /// GPIB address of the instrument to read from.
    pub gpib_address: u8,
    /// Which memory window to dump, and where to.
    pub command: CliCommand,
}

/// The three ways to choose a memory window.
#[derive(Debug, PartialEq, Eq)]
pub enum CliCommand {
    /// The window of early hardware revisions.
    Old(ConstRangeArgs),
    /// The window of later hardware revisions.
    New(ConstRangeArgs),
    /// A window given by the user.
    User(UserRangeArgs),
}

/// Arguments of a dump of a preset window.
#[derive(Debug, PartialEq, Eq)]
pub struct ConstRangeArgs {
    /// Path of the binary file to write.
    pub output_file: String,
}

/// Arguments of a dump of a user's window.
#[derive(Debug, PartialEq, Eq)]
pub struct UserRangeArgs {
    /// First address to dump.
    pub start: u16,
    /// Last address to dump. Memory is read two bytes at a time.
    pub end: u16,
    /// Path of the binary file to write.
    pub output_file: String,
}

impl UserRangeArgs {
    /// The window that the arguments describe. It is refused when it is empty
    /// or ends beyond the address space.
    pub fn mem_range(&self) -> (r: Result<AddressRange, DumpError>)
        ensures
            r == (RangePolicy::UserDefined { start: self.start, end: self.end }).spec_resolve(),
            r is Ok <==> self.start <= self.end && self.end <= crate::range::MAX_ADDRESS,
            r matches Ok(range) ==> range.wf() && range.start == self.start && range.end
                == self.end,
            r matches Err(error) ==> error == (DumpError::InvalidRange {
                start: self.start,
                end: self.end,
            }),
    {
        AddressRange::new(self.start, self.end)
    }
}

impl CliCommand {
    /// The policy that the subcommand stands for.
    pub open spec fn spec_policy(&self) -> RangePolicy {
        match *self {
            CliCommand::Old(_) => RangePolicy::PresetA,
            CliCommand::New(_) => RangePolicy::PresetB,
            CliCommand::User(args) => RangePolicy::UserDefined { start: args.start, end: args.end },
        }
    }

    /// The policy that the subcommand stands for.
    pub fn policy(&self) -> (p: RangePolicy)
        ensures
            p == self.spec_policy(),
    {
        match self {
            CliCommand::Old(_) => RangePolicy::PresetA,
            CliCommand::New(_) => RangePolicy::PresetB,
            CliCommand::User(args) => RangePolicy::UserDefined { start: args.start, end: args.end },
        }
    }

    /// The window to dump, where the subcommand describes one.
    pub fn mem_range(&self) -> (r: Result<AddressRange, DumpError>)
        ensures
            r == self.spec_policy().spec_resolve(),
            r matches Ok(range) ==> range.wf(),
    {
        self.policy().resolve()
    }

    /// Path of the binary file to write.
    pub fn output_file(&self) -> (path: &String)
        ensures
            path@ == match *self {
                CliCommand::Old(args) => args.output_file@,
                CliCommand::New(args) => args.output_file@,
                CliCommand::User(args) => args.output_file@,
            },
    {
        match self {
            CliCommand::Old(args) => &args.output_file,
            CliCommand::New(args) => &args.output_file,
            CliCommand::User(args) => &args.output_file,
        }
    }
}

} // verus!
