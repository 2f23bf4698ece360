//! What the server answers: which target a request means, for how long it
//! may run, under which lock, and with what status and body.
use crate::api;
use crate::auth::AuthError;
use crate::config::{effective_timeout, target_at, Config};
use crate::logutil::{log_text, render_log, LogEntry};
use crate::text::{chars_of, push_text, str_eq, string_of};
use vstd::prelude::*;
use vstd::string::StrSliceExecFns;
use vstd::utf8::encode_utf8;

verus! {

/// Status of a run that passed.
pub const STATUS_OK: u16 = 200;

/// Status of a run that failed.
pub const STATUS_BAD_REQUEST: u16 = 400;

/// Status of a request that is not let in.
pub const STATUS_UNAUTHORIZED: u16 = 401;

/// Status of a request for a target that is not configured.
pub const STATUS_NOT_FOUND: u16 = 404;

/// An answer to a request.
#[derive(Debug)]
pub struct Response {
    pub status: u16,
    pub body: Vec<u8>,
}

/// A run that a request asks for.
#[derive(Debug, Clone, Copy, PartialEq, Eq, Structural)]
pub struct RunRequest {
    /// The position of the target in the configuration.
    pub target: usize,
    /// The seconds that the run gets.
    pub timeout_seconds: u64,
}

/// The body that tells of an unknown target.
pub open spec fn not_found_text(name: Seq<char>) -> Seq<char> {
    "Target not found: "@ + name
}

/// Decides what a request to run on the target `name` gets: a run on the
/// first target of that name, with the time that the configuration grants,
/// or the answer that there is no such target.
pub fn handle_run(config: &Config, name: &str, timeout: Option<u64>) -> (r: Result<
    RunRequest,
    Response,
>)
    ensures
        match r {
            Ok(run) => target_at(config.targets@, name@) == Some(run.target as int) && run.target
                < config.targets.len() && run.timeout_seconds == effective_timeout(
                timeout,
                config.default_timeout,
                config.max_timeout,
            ),
            Err(response) => target_at(config.targets@, name@) is None && response.status
                == STATUS_NOT_FOUND && response.body@ == encode_utf8(not_found_text(name@)),
        },
{
    match config.find_target(name) {
        Some(target) => Ok(RunRequest { target, timeout_seconds: config.timeout_for(timeout) }),
        None => {
            let mut text: Vec<char> = Vec::new();
            push_text(&mut text, "Target not found: ");
            push_text(&mut text, name);
            let body = string_of(&text).as_str().as_bytes_vec();
            Err(Response { status: STATUS_NOT_FOUND, body })
        },
    }
}

/// The status of a run: 200 where it passed, 400 where it did not.
pub fn run_status(ok: bool) -> (status: u16)
    ensures
        status == if ok {
            STATUS_OK
        } else {
            STATUS_BAD_REQUEST
        },
{
    if ok {
        STATUS_OK
    } else {
        STATUS_BAD_REQUEST
    }
}

/// The answer to a run: its status, and the captured log as the body, one
/// line per entry in the order of capture.
pub fn run_with_log_capture(ok: bool, entries: &Vec<LogEntry>) -> (response: Response)
    ensures
        response.status == if ok {
            STATUS_OK
        } else {
            STATUS_BAD_REQUEST
        },
        response.body@ == encode_utf8(log_text(entries@)),
{
    let body = render_log(entries).as_str().as_bytes_vec();
    Response { status: run_status(ok), body }
}

/// The answer to a request that is not let in: status 401, and a body that
/// says why.
pub fn auth_rejection(error: AuthError) -> (response: Response)
    ensures
        response.status == STATUS_UNAUTHORIZED,
        response.body@ == encode_utf8(
            match error {
                AuthError::BadAuthHeaderFormat => "Bad Authorization header"@,
                AuthError::Unauthorized => "Unauthorized"@,
            },
        ),
{
    match error {
        AuthError::BadAuthHeaderFormat => Response {
            status: STATUS_UNAUTHORIZED,
            body: "Bad Authorization header".as_bytes_vec(),
        },
        AuthError::Unauthorized => Response {
            status: STATUS_UNAUTHORIZED,
            body: "Unauthorized".as_bytes_vec(),
        },
    }
}

/// The row of one target on the status page.
pub open spec fn status_row(target: api::Target) -> Seq<char> {
    "<tr><td>"@ + target.name@ + "</td><td>"@ + target.chip@ + "</td><td>"@ + (if target.up {
        "true"@
    } else {
        "false"@
    }) + "</td></tr>"@
}

/// The rows of the targets on the status page, in order.
pub open spec fn status_rows(targets: Seq<api::Target>) -> Seq<char>
    decreases targets.len(),
{
    if targets.len() == 0 {
        Seq::empty()
    } else {
        status_rows(targets.drop_last()) + status_row(targets.last())
    }
}

/// The status page: a table of the targets with name, chip and whether the
/// probe is up, and the version of the server below it.
pub open spec fn status_page(targets: Seq<api::Target>, version: Seq<char>) -> Seq<char> {
    "<html><head><title>Teleprobe Status</title></head><body><h1>Teleprobe Status</h1><table><tr><th>Name</th><th>Chip</th><th>Up</th></tr>"@
        + status_rows(targets)
        + "</table><br><br> -- <a href=\"https://github.com/embassy-rs/teleprobe\">Teleprobe</a> version "@
        + version + "</body></html>"@
}

/// Writes the status page.
pub fn handle_home(list: &api::TargetList, version: &str) -> (page: String)
    ensures
        page@ == status_page(list.targets@, version@),
{
    let mut out: Vec<char> = Vec::new();
    push_text(
        &mut out,
        "<html><head><title>Teleprobe Status</title></head><body><h1>Teleprobe Status</h1><table><tr><th>Name</th><th>Chip</th><th>Up</th></tr>",
    );
    let ghost head = out@;
    let mut i: usize = 0;
    assert(out@ =~= head + status_rows(list.targets@.take(0)));
    while i < list.targets.len()
        invariant
            i <= list.targets.len(),
            out@ == head + status_rows(list.targets@.take(i as int)),
        decreases list.targets.len() - i,
    {
        assert(list.targets@.take(i + 1).drop_last() == list.targets@.take(i as int));
        assert(list.targets@.take(i + 1).last() == list.targets@[i as int]);
        let ghost before = out@;
        let target = &list.targets[i];
        push_text(&mut out, "<tr><td>");
        push_text(&mut out, target.name.as_str());
        push_text(&mut out, "</td><td>");
        push_text(&mut out, target.chip.as_str());
        push_text(&mut out, "</td><td>");
        if target.up {
            push_text(&mut out, "true");
        } else {
            push_text(&mut out, "false");
        }
        push_text(&mut out, "</td></tr>");
        assert(out@ =~= before + status_row(*target));
        assert(head + status_rows(list.targets@.take(i as int)) + status_row(*target) =~= head + (
        status_rows(list.targets@.take(i as int)) + status_row(*target)));
        i += 1;
    }
    assert(list.targets@.take(list.targets@.len() as int) == list.targets@);
    push_text(
        &mut out,
        "</table><br><br> -- <a href=\"https://github.com/embassy-rs/teleprobe\">Teleprobe</a> version ",
    );
    push_text(&mut out, version);
    push_text(&mut out, "</body></html>");
    assert(out@ =~= status_page(list.targets@, version@));
    string_of(&out)
}

/// The locks of the targets: one slot per target name that was ever asked
/// for, in the order of the first asking. Slots are never given up.
pub struct TargetLocks {
    names: Vec<String>,
}

impl TargetLocks {
    /// The names that have a slot, by slot.
    pub closed spec fn names(&self) -> Seq<Seq<char>> {
        self.names@.map_values(|n: String| n@)
    }

    /// No name has two slots.
    pub open spec fn distinct(names: Seq<Seq<char>>) -> bool {
        forall|i: int, j: int|
            0 <= i < names.len() && 0 <= j < names.len() && #[trigger] names[i] == #[trigger] names[j]
                ==> i == j
    }

    #[verifier::type_invariant]
    spec fn well_formed(&self) -> bool {
        Self::distinct(self.names())
    }

    /// A registry without slots.
    pub fn new() -> (locks: TargetLocks)
        ensures
            locks.names().len() == 0,
    {
        TargetLocks { names: Vec::new() }
    }

    /// The number of slots.
    pub fn len(&self) -> (n: usize)
        ensures
            n == self.names().len(),
    {
        self.names.len()
    }

    /// The slot of a target name. A name that was asked for before keeps
    /// its slot; a new name gets the next slot. The slots of all other
    /// names stay as they are.
    pub fn slot(&mut self, name: &str) -> (slot: usize)
        ensures
            Self::distinct(final(self).names()),
            slot < final(self).names().len(),
            final(self).names()[slot as int] == name@,
            if old(self).names().contains(name@) {
                final(self).names() == old(self).names()
            } else {
                final(self).names() == old(self).names().push(name@) && slot == old(self).names().len()
            },
    {
        proof {
            use_type_invariant(&*self);
        }
        let mut i: usize = 0;
        while i < self.names.len()
            invariant
                i <= self.names.len(),
                self.names@ == old(self).names@,
                Self::distinct(self.names()),
                forall|j: int| 0 <= j < i ==> (#[trigger] self.names()[j]) != name@,
            decreases self.names.len() - i,
        {
            if str_eq(self.names[i].as_str(), name) {
                assert(self.names()[i as int] == name@);
                return i;
            }
            i += 1;
        }
        assert(!self.names().contains(name@));
        let owned = string_of(&chars_of(name));
        let ghost before = self.names();
        let mut names: Vec<String> = Vec::new();
        assert(names@.map_values(|n: String| n@) =~= Seq::<Seq<char>>::empty());
        core::mem::swap(&mut self.names, &mut names);
        names.push(owned);
        assert(names@.map_values(|n: String| n@) =~= before.push(name@));
        let slot = names.len() - 1;
        core::mem::swap(&mut self.names, &mut names);
        slot
    }
}

/// Two requests wait for the same lock exactly when they name the same
/// target: the same name always gets the same slot, and different names get
/// different slots.
pub proof fn lemma_one_slot_per_target(names: Seq<Seq<char>>, a: int, b: int)
    requires
        TargetLocks::distinct(names),
        0 <= a < names.len(),
        0 <= b < names.len(),
    ensures
        a == b <==> names[a] == names[b],
{
}

} // verus!
