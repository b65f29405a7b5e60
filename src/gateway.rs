use vstd::prelude::*;
use crate::credential::{password_accepted, PasswordHashString};
use crate::rate_limit::{within_cooldown, RateLimiting, COOLDOWN_MS};
use crate::registry::{command_for, names_of, string_views, Commands};
use crate::shell::{plan_shell, shell_plan, ShellInvocation};

verus! {

/// Why one request failed. Every failure is terminal for its request.
#[derive(Debug, Clone, Copy, PartialEq, Eq, Structural)]
pub enum InvocationError {
    RateLimited,
    InvalidCredential,
    UnknownCommand,
    SpawnFailed,
    ProcessError,
}

impl InvocationError {
    /// The text shown to the caller for this failure.
    pub fn message(&self) -> (r: String)
        ensures
            r@ == error_text(*self),
    {
        match self {
            InvocationError::RateLimited => "Rate limited".to_owned(),
            InvocationError::InvalidCredential => "Invalid password".to_owned(),
            InvocationError::UnknownCommand => "No command with that name".to_owned(),
            InvocationError::SpawnFailed => "Could not start the command".to_owned(),
            InvocationError::ProcessError => "The command could not be waited on".to_owned(),
        }
    }
}

/// The human-readable text of each failure.
pub open spec fn error_text(e: InvocationError) -> Seq<char> {
    match e {
        InvocationError::RateLimited => "Rate limited"@,
        InvocationError::InvalidCredential => "Invalid password"@,
        InvocationError::UnknownCommand => "No command with that name"@,
        InvocationError::SpawnFailed => "Could not start the command"@,
        InvocationError::ProcessError => "The command could not be waited on"@,
    }
}

/// What a request that passed the rate limiter yields, once the credential
/// verdict is known: the process to spawn, or the failure.
pub open spec fn admitted_outcome(
    entries: Seq<(Seq<char>, Seq<char>)>,
    name: Seq<char>,
    accepted: bool,
) -> Result<(Seq<char>, Seq<Seq<char>>), InvocationError> {
    if !accepted {
        Err(InvocationError::InvalidCredential)
    } else {
        match command_for(entries, name) {
            None => Err(InvocationError::UnknownCommand),
            Some(line) => Ok(shell_plan(line)),
        }
    }
}

/// One whole request against the registry `entries` and the stored `hash`,
/// arriving at `now` with the limiter's stamp `last`, its password check
/// finishing at `checked_at`: its outcome and the limiter's stamp afterwards.
pub open spec fn invoke_spec(
    entries: Seq<(Seq<char>, Seq<char>)>,
    hash: Seq<char>,
    last: Option<u64>,
    now: u64,
    checked_at: u64,
    name: Seq<char>,
    password: Seq<char>,
) -> (Result<(Seq<char>, Seq<Seq<char>>), InvocationError>, Option<u64>) {
    if within_cooldown(last, now) {
        (Err(InvocationError::RateLimited), last)
    } else {
        (admitted_outcome(entries, name, password_accepted(password, hash)), Some(checked_at))
    }
}

/// The outcome of a request as values.
pub open spec fn outcome_view(r: Result<ShellInvocation, InvocationError>) -> Result<
    (Seq<char>, Seq<Seq<char>>),
    InvocationError,
> {
    match r {
        Ok(p) => Ok(p@),
        Err(e) => Err(e),
    }
}

/// The names of all commands; needs no password and touches no state.
pub fn command_list(commands: &Commands) -> (r: Vec<String>)
    ensures
        string_views(r@) == names_of(commands@),
{
    commands.names()
}

/// The rest of an admitted request once its password check has finished at
/// `checked_at` with the verdict `accepted`: stamps the limiter with
/// `checked_at`, whatever the verdict, then resolves `command_name` and plans
/// its process.
pub fn finish_admitted(
    commands: &Commands,
    rate_limiting: &mut RateLimiting,
    checked_at: u64,
    command_name: &String,
    accepted: bool,
) -> (r: Result<ShellInvocation, InvocationError>)
    ensures
        final(rate_limiting).last_request_time == Some(checked_at),
        outcome_view(r) == admitted_outcome(commands@, command_name@, accepted),
{
    rate_limiting.stamp(checked_at);
    if !accepted {
        return Err(InvocationError::InvalidCredential);
    }
    match commands.resolve(command_name) {
        None => Err(InvocationError::UnknownCommand),
        Some(c) => Ok(plan_shell(c.command().as_str())),
    }
}

/// Handles one request arriving at `now`: the rate limiter, then the
/// password, then the command name. On success the planned process is
/// returned for the caller to spawn and wait on. Whenever the password was
/// checked, whatever the verdict, the limiter is stamped with `checked_at`,
/// the clock reading taken when that check finished.
pub fn invoke_command(
    commands: &Commands,
    password_hash: &PasswordHashString,
    rate_limiting: &mut RateLimiting,
    now: u64,
    checked_at: u64,
    command_name: &String,
    password: &String,
) -> (r: Result<ShellInvocation, InvocationError>)
    ensures
        (outcome_view(r), final(rate_limiting).last_request_time) == invoke_spec(
            commands@,
            password_hash.0@,
            old(rate_limiting).last_request_time,
            now,
            checked_at,
            command_name@,
            password@,
        ),
{
    if !rate_limiting.admits(now) {
        return Err(InvocationError::RateLimited);
    }
    let accepted = password_hash.verify(password.as_str());
    finish_admitted(commands, rate_limiting, checked_at, command_name, accepted)
}

/// A name that is not registered never yields a process to spawn; a request
/// that passes the rate limiter and the password check fails with
/// `UnknownCommand`.
pub proof fn unknown_name_never_spawns(
    entries: Seq<(Seq<char>, Seq<char>)>,
    hash: Seq<char>,
    last: Option<u64>,
    now: u64,
    checked_at: u64,
    name: Seq<char>,
    password: Seq<char>,
)
    requires
        command_for(entries, name) is None,
    ensures
        !(invoke_spec(entries, hash, last, now, checked_at, name, password).0 is Ok),
        !within_cooldown(last, now) && password_accepted(password, hash) ==> invoke_spec(
            entries,
            hash,
            last,
            now,
            checked_at,
            name,
            password,
        ).0 == Err::<(Seq<char>, Seq<Seq<char>>), InvocationError>(
            InvocationError::UnknownCommand,
        ),
{
}

/// For a registered name, a wrong password never yields a process to spawn;
/// past the rate limiter it fails with `InvalidCredential`.
pub proof fn wrong_password_never_spawns(
    entries: Seq<(Seq<char>, Seq<char>)>,
    hash: Seq<char>,
    last: Option<u64>,
    now: u64,
    checked_at: u64,
    name: Seq<char>,
    password: Seq<char>,
)
    requires
        command_for(entries, name) is Some,
        !password_accepted(password, hash),
    ensures
        !(invoke_spec(entries, hash, last, now, checked_at, name, password).0 is Ok),
        !within_cooldown(last, now) ==> invoke_spec(
            entries,
            hash,
            last,
            now,
            checked_at,
            name,
            password,
        ).0 == Err::<(Seq<char>, Seq<Seq<char>>), InvocationError>(
            InvocationError::InvalidCredential,
        ),
{
}

/// A request whose password check finished at `c1` shuts out, whatever its
/// password, every request arriving less than the cooldown after `c1`, and
/// the rejection leaves the stamp where it was.
pub proof fn request_within_cooldown_is_limited(
    entries: Seq<(Seq<char>, Seq<char>)>,
    hash: Seq<char>,
    last: Option<u64>,
    t1: u64,
    c1: u64,
    name1: Seq<char>,
    password1: Seq<char>,
    t2: u64,
    c2: u64,
    name2: Seq<char>,
    password2: Seq<char>,
)
    requires
        !within_cooldown(last, t1),
        (t2 as int) - (c1 as int) < COOLDOWN_MS as int,
    ensures
        ({
            let stamp = invoke_spec(entries, hash, last, t1, c1, name1, password1).1;
            stamp == Some(c1) && invoke_spec(entries, hash, stamp, t2, c2, name2, password2) == (
            Err::<(Seq<char>, Seq<Seq<char>>), InvocationError>(InvocationError::RateLimited),
            stamp,
            )
        }),
{
}

/// Once the cooldown has elapsed after a password check that finished at
/// `c1`, the next request goes past the rate limiter: it is judged on its
/// password and name, and stamps the limiter anew.
pub proof fn request_after_cooldown_is_admitted(
    entries: Seq<(Seq<char>, Seq<char>)>,
    hash: Seq<char>,
    last: Option<u64>,
    t1: u64,
    c1: u64,
    name1: Seq<char>,
    password1: Seq<char>,
    t2: u64,
    c2: u64,
    name2: Seq<char>,
    password2: Seq<char>,
)
    requires
        !within_cooldown(last, t1),
        (t2 as int) - (c1 as int) >= COOLDOWN_MS as int,
    ensures
        ({
            let stamp = invoke_spec(entries, hash, last, t1, c1, name1, password1).1;
            invoke_spec(entries, hash, stamp, t2, c2, name2, password2) == (admitted_outcome(
                entries,
                name2,
                password_accepted(password2, hash),
            ), Some(c2))
        }),
{
}

} // verus!
