//! One hook invocation at a time: what the hook is handed, how its captured
//! output is judged, and how errors are tallied across the run.

use vstd::prelude::*;

use crate::domains::comma_join;
use crate::messages::colored_error_line;
use crate::numerals::dec_rep;
use crate::text::{trim_end, trimmed_end};
use crate::token::{fresh_validation_token, is_uuid_text};

verus! {

/// Everything one hook invocation receives, constructed fresh per domain and
/// handed to the hook process through four environment variables.
pub struct InvocationRequest {
    /// The domain under validation: `HOOK_DOMAIN`.
    pub domain: String,
    /// A fresh random UUID: `HOOK_VALIDATION`.
    pub validation_token: String,
    /// How many domains still follow this one: `HOOK_REMAINING_CHALLENGES`.
    pub remaining_challenges: usize,
    /// The comma-joined full domain list: `HOOK_ALL_DOMAINS`.
    pub all_domains: String,
}

/// Builds the request for the domain at `index`. The countdown reaches 0 on
/// the last domain, and the joined list handed along is the same whatever
/// the index; only the token is fresh each time.
pub fn build_request(domains: &Vec<String>, all_domains: &String, index: usize) -> (r:
    InvocationRequest)
    requires
        index < domains.len(),
    ensures
        r.domain@ == domains.deep_view()[index as int],
        is_uuid_text(r.validation_token@),
        r.remaining_challenges == domains.len() - index - 1,
        r.all_domains@ == all_domains@,
{
    let r = InvocationRequest {
        domain: domains[index].clone(),
        validation_token: fresh_validation_token(),
        remaining_challenges: domains.len() - index - 1,
        all_domains: all_domains.clone(),
    };
    proof {
        assert(domains.deep_view()[index as int] == domains@[index as int]@);
    }
    r
}

/// The environment handed to the hook process: exactly these four variables,
/// in this order, and nothing else of the request's content.
pub open spec fn request_environment(r: InvocationRequest) -> Seq<(Seq<char>, Seq<char>)> {
    seq![
        ("HOOK_DOMAIN"@, r.domain@),
        ("HOOK_VALIDATION"@, r.validation_token@),
        ("HOOK_REMAINING_CHALLENGES"@, dec_rep(r.remaining_challenges as nat)),
        ("HOOK_ALL_DOMAINS"@, r.all_domains@),
    ]
}

/// Renders the request as name/value pairs, ready to be set on the child
/// process's environment.
pub fn hook_environment(r: &InvocationRequest) -> (env: Vec<(String, String)>)
    ensures
        env@.len() == 4,
        env@[0].0@ == "HOOK_DOMAIN"@,
        env@[0].1@ == r.domain@,
        env@[1].0@ == "HOOK_VALIDATION"@,
        env@[1].1@ == r.validation_token@,
        env@[2].0@ == "HOOK_REMAINING_CHALLENGES"@,
        env@[2].1@ == dec_rep(r.remaining_challenges as nat),
        env@[3].0@ == "HOOK_ALL_DOMAINS"@,
        env@[3].1@ == r.all_domains@,
{
    let mut env: Vec<(String, String)> = Vec::new();
    env.push(("HOOK_DOMAIN".to_owned(), r.domain.clone()));
    env.push(("HOOK_VALIDATION".to_owned(), r.validation_token.clone()));
    env.push((
        "HOOK_REMAINING_CHALLENGES".to_owned(),
        crate::numerals::usize_to_decimal(r.remaining_challenges),
    ));
    env.push(("HOOK_ALL_DOMAINS".to_owned(), r.all_domains.clone()));
    env
}

/// The names and values of `request_environment` match what
/// `hook_environment` promises pair by pair; in particular the fourth
/// variable is the joined domain list itself, untouched by the index.
pub proof fn lemma_request_environment_all_domains(r: InvocationRequest, l: Seq<Seq<char>>)
    requires
        r.all_domains@ == comma_join(l),
    ensures
        request_environment(r)[3].1 == comma_join(l),
{
}

/// The judgement of one finished hook invocation, derived from its captured
/// output streams and discarded after printing and tallying.
pub struct HookReport {
    /// Lines for standard output: a header naming the domain, then the
    /// hook's trimmed stdout — or nothing, if stdout trimmed to empty.
    pub output_lines: Vec<String>,
    /// Lines for standard error, each wrapped in red: a header naming the
    /// domain, then the hook's trimmed stderr — or nothing.
    pub error_lines: Vec<String>,
    /// This invocation's contribution to the error total: 1 exactly when
    /// the trimmed stderr was non-empty. The hook's exit code plays no part.
    pub err_code: i32,
}

/// The header above a hook's stdout content.
pub open spec fn stdout_header(domain: Seq<char>) -> Seq<char> {
    "Hook '--auth-hook' for "@ + domain + " ran with output:"@
}

/// The header above a hook's stderr content.
pub open spec fn stderr_header(domain: Seq<char>) -> Seq<char> {
    "Hook '--auth-hook' for "@ + domain + " ran with error output:"@
}

/// The stdout-channel lines for one invocation.
pub open spec fn report_output_lines(domain: Seq<char>, stdout_raw: Seq<char>) -> Seq<Seq<char>> {
    if trimmed_end(stdout_raw).len() > 0 {
        seq![stdout_header(domain), trimmed_end(stdout_raw)]
    } else {
        Seq::empty()
    }
}

/// The stderr-channel lines for one invocation, each wrapped in red.
pub open spec fn report_error_lines(domain: Seq<char>, stderr_raw: Seq<char>) -> Seq<Seq<char>> {
    if trimmed_end(stderr_raw).len() > 0 {
        seq![
            colored_error_line(stderr_header(domain)),
            colored_error_line(trimmed_end(stderr_raw)),
        ]
    } else {
        Seq::empty()
    }
}

fn stdout_header_of(domain: &str) -> (r: String)
    ensures
        r@ == stdout_header(domain@),
{
    let mut r = String::new();
    r.append("Hook '--auth-hook' for ");
    r.append(domain);
    r.append(" ran with output:");
    proof {
        assert(r@ =~= stdout_header(domain@));
    }
    r
}

fn stderr_header_of(domain: &str) -> (r: String)
    ensures
        r@ == stderr_header(domain@),
{
    let mut r = String::new();
    r.append("Hook '--auth-hook' for ");
    r.append(domain);
    r.append(" ran with error output:");
    proof {
        assert(r@ =~= stderr_header(domain@));
    }
    r
}

/// Judges one invocation from its raw captured streams: both are trimmed of
/// trailing whitespace, non-empty stdout earns a headed echo, non-empty
/// stderr earns a red headed echo and marks the invocation as failed.
pub fn process_hook_output(domain: &str, stdout_raw: &str, stderr_raw: &str) -> (r: HookReport)
    ensures
        r.output_lines.deep_view() == report_output_lines(domain@, stdout_raw@),
        r.error_lines.deep_view() == report_error_lines(domain@, stderr_raw@),
        r.err_code == (if trimmed_end(stderr_raw@).len() > 0 {
            1i32
        } else {
            0i32
        }),
{
    let stdout = trim_end(stdout_raw);
    let stderr = trim_end(stderr_raw);

    let mut output_lines: Vec<String> = Vec::new();
    if stdout.as_str().unicode_len() > 0 {
        output_lines.push(stdout_header_of(domain));
        output_lines.push(stdout);
    }
    proof {
        assert(output_lines.deep_view() =~= report_output_lines(domain@, stdout_raw@));
    }

    let mut error_lines: Vec<String> = Vec::new();
    let mut err_code: i32 = 0;
    if stderr.as_str().unicode_len() > 0 {
        err_code = 1;
        error_lines.push(crate::messages::color_error(stderr_header_of(domain).as_str()));
        error_lines.push(crate::messages::color_error(stderr.as_str()));
    }
    proof {
        assert(error_lines.deep_view() =~= report_error_lines(domain@, stderr_raw@));
    }

    HookReport { output_lines, error_lines, err_code }
}

/// The running error total across the sequential run: how many invocations
/// so far reported a non-empty stderr.
pub struct RunTally {
    /// The accumulated total.
    pub err_total: u64,
}

impl RunTally {
    /// A fresh tally, before any invocation.
    pub fn new() -> (r: RunTally)
        ensures
            r.err_total == 0,
    {
        RunTally { err_total: 0 }
    }

    /// Folds one invocation's contribution into the total.
    pub fn record(&mut self, err_code: i32)
        requires
            old(self).err_total < u64::MAX,
            0 <= err_code <= 1,
        ensures
            final(self).err_total == old(self).err_total + err_code,
    {
        self.err_total = self.err_total + (err_code as u64);
    }

    /// Whether the whole run counts as successful: no invocation reported
    /// an error, so the closing success line is printed.
    pub fn is_success(&self) -> (r: bool)
        ensures
            r == (self.err_total == 0),
    {
        self.err_total == 0
    }
}

/// The process's exit code after a completed run: 0 whatever the tally says.
/// A failed hook is reported in red but deliberately never changes the exit
/// code, matching the long-standing observable behavior.
pub fn process_exit_code(tally: &RunTally) -> (r: i32)
    ensures
        r == 0,
{
    0
}

} // verus!
