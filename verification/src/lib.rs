//! A small library behind a domain-validation hook runner: for a list of
//! domains, the runner invokes an external "auth hook" executable once per
//! domain, handing it a fresh validation token and bookkeeping data through
//! environment variables, and tallies which invocations reported errors.
//!
//! Everything the runner decides or formats lives here, with contracts:
//! normalizing the domain list, the progress and error messages, the
//! per-domain countdown, the environment handed to the hook, and the
//! assessment of each hook's captured output. The thin shell that actually
//! touches the filesystem and spawns processes stays outside.

pub mod domains;
pub mod invocation;
pub mod messages;
pub mod numerals;
pub mod text;
pub mod token;
