//! Where the port of a running server is published, and how it is read back.
//!
//! The server binds a port that the system picks and writes it to a file in the
//! application's data directory. A client looks for that file in the places
//! where the directory can be.
use crate::text::{
    concat, decimal, decimal_reads_back, decimal_text, is_digit, is_numeral, is_space,
    numeral_value, trim, trimmed, trimmed_start,
};
use vstd::prelude::*;
use vstd::string::*;

verus! {

/// Name of the file that holds the port.
pub const PORT_FILENAME: &'static str = "rapidraw-agent-port";

/// Name of the file that the port is written to before that file takes its place.
pub const DRAFT_FILENAME: &'static str = "rapidraw-agent-port.tmp";

/// The application's identifier: the name of its data directory.
pub const APP_IDENTIFIER: &'static str = "io.github.CyberTimon.RapidRAW";

// ---- paths ----

/// `std::path::PathBuf`.
#[verifier::external_type_specification]
#[verifier::external_body]
pub struct ExPathBuf(std::path::PathBuf);

/// The pieces of a path between its separators, from left to right, with its root
/// and its drive, where it has them, as pieces of their own. Empty pieces and
/// those that stand for the directory itself are left out. Each piece is taken as
/// text (with what is not Unicode replaced, as `to_string_lossy` does).
pub uninterp spec fn path_names(path: std::path::PathBuf) -> Seq<Seq<char>>;

/// Whether `name` is the name of a file or a directory on every platform: it is
/// not empty, stands for no other directory, and holds no separator and no colon.
pub open spec fn is_plain_name(name: Seq<char>) -> bool {
    &&& name.len() > 0
    &&& name.len() == 1 ==> name[0] != '.'
    &&& name.len() == 2 ==> !(name[0] == '.' && name[1] == '.')
    &&& forall|i: int| 0 <= i < name.len() ==> !(#[trigger] name[i] == '/' || name[i] == '\\'
        || name[i] == ':')
}

/// `Path::join` with a plain name adds that name as a last piece.
#[verifier::external_body]
pub(crate) fn join(path: &std::path::PathBuf, name: &str) -> (joined: std::path::PathBuf)
    requires
        is_plain_name(name@),
    ensures
        path_names(joined) == path_names(*path).push(name@),
{
    path.join(name)
}

/// `dirs::home_dir` finds the user's home directory, if there is one. What it is
/// rests on the environment.
pub assume_specification[ dirs::home_dir ]() -> Option<std::path::PathBuf>
;

/// `dirs::data_dir` finds the user's data directory, if there is one. What it is
/// rests on the environment.
pub assume_specification[ dirs::data_dir ]() -> Option<std::path::PathBuf>
;

/// `dirs::data_local_dir` finds the user's local data directory, if there is one.
/// What it is rests on the environment.
pub assume_specification[ dirs::data_local_dir ]() -> Option<std::path::PathBuf>
;

// ---- candidate directories ----

/// The directories that the application's data can be in below `home`: those of
/// macOS, of Linux and of Windows, in that order.
pub open spec fn home_candidates(home: Seq<Seq<char>>) -> Seq<Seq<Seq<char>>> {
    seq![
        home.push("Library"@).push("Application Support"@).push(APP_IDENTIFIER@),
        home.push(".local"@).push("share"@).push(APP_IDENTIFIER@),
        home.push("AppData"@).push("Roaming"@).push(APP_IDENTIFIER@),
    ]
}

/// All candidates: those below the home directory, then the one in the data
/// directory, then the one in the local data directory.
pub open spec fn candidates(
    home: Option<Seq<Seq<char>>>,
    data: Option<Seq<Seq<char>>>,
    data_local: Option<Seq<Seq<char>>>,
) -> Seq<Seq<Seq<char>>> {
    (match home {
        Some(dir) => home_candidates(dir),
        None => Seq::empty(),
    }) + (match data {
        Some(dir) => seq![dir.push(APP_IDENTIFIER@)],
        None => Seq::empty(),
    }) + (match data_local {
        Some(dir) => seq![dir.push(APP_IDENTIFIER@)],
        None => Seq::empty(),
    })
}

/// The pieces of a directory that was found.
pub open spec fn found_names(dir: Option<std::path::PathBuf>) -> Option<Seq<Seq<char>>> {
    match dir {
        Some(path) => Some(path_names(path)),
        None => None,
    }
}

/// The pieces of each of a row of paths.
pub open spec fn all_names(paths: Seq<std::path::PathBuf>) -> Seq<Seq<Seq<char>>> {
    paths.map_values(|path: std::path::PathBuf| path_names(path))
}

proof fn lemma_plain_names()
    ensures
        is_plain_name("Library"@),
        is_plain_name("Application Support"@),
        is_plain_name(".local"@),
        is_plain_name("share"@),
        is_plain_name("AppData"@),
        is_plain_name("Roaming"@),
        is_plain_name(APP_IDENTIFIER@),
        is_plain_name(PORT_FILENAME@),
        is_plain_name(DRAFT_FILENAME@),
        DRAFT_FILENAME@ == PORT_FILENAME@ + ".tmp"@,
        DRAFT_FILENAME@ != PORT_FILENAME@,
{
    reveal_strlit("Library");
    reveal_strlit("Application Support");
    reveal_strlit(".local");
    reveal_strlit("share");
    reveal_strlit("AppData");
    reveal_strlit("Roaming");
    reveal_strlit("io.github.CyberTimon.RapidRAW");
    reveal_strlit("rapidraw-agent-port");
    reveal_strlit("rapidraw-agent-port.tmp");
    reveal_strlit(".tmp");
    assert(DRAFT_FILENAME@ =~= PORT_FILENAME@ + ".tmp"@);
    assert(DRAFT_FILENAME@.len() != PORT_FILENAME@.len());
}

/// The directories that the port file can be in, given the directories that the
/// user has.
pub fn candidate_dirs_in(
    home: Option<std::path::PathBuf>,
    data: Option<std::path::PathBuf>,
    data_local: Option<std::path::PathBuf>,
) -> (dirs: Vec<std::path::PathBuf>)
    ensures
        all_names(dirs@) == candidates(
            found_names(home),
            found_names(data),
            found_names(data_local),
        ),
{
    proof {
        lemma_plain_names();
    }
    let mut dirs: Vec<std::path::PathBuf> = Vec::new();
    if let Some(dir) = &home {
        dirs.push(join(&join(&join(dir, "Library"), "Application Support"), APP_IDENTIFIER));
        dirs.push(join(&join(&join(dir, ".local"), "share"), APP_IDENTIFIER));
        dirs.push(join(&join(&join(dir, "AppData"), "Roaming"), APP_IDENTIFIER));
    }
    if let Some(dir) = &data {
        dirs.push(join(dir, APP_IDENTIFIER));
    }
    if let Some(dir) = &data_local {
        dirs.push(join(dir, APP_IDENTIFIER));
    }
    assert(all_names(dirs@) =~= candidates(
        found_names(home),
        found_names(data),
        found_names(data_local),
    ));
    dirs
}

/// The directories that the port file can be in, on this machine. Which
/// directories the user has rests on the environment; below them, the candidates
/// are those of [`candidate_dirs_in`].
pub fn candidate_dirs() -> (dirs: Vec<std::path::PathBuf>)
    ensures
        exists|home: Option<Seq<Seq<char>>>,
            data: Option<Seq<Seq<char>>>,
            data_local: Option<Seq<Seq<char>>>| #[trigger]
            candidates(home, data, data_local) == all_names(dirs@),
        forall|i: int|
            0 <= i < dirs.len() ==> path_names(#[trigger] dirs@[i]).len() > 0 && path_names(
                dirs@[i],
            ).last() == APP_IDENTIFIER@,
{
    let home = dirs::home_dir();
    let data = dirs::data_dir();
    let data_local = dirs::data_local_dir();
    let ghost all = candidates(found_names(home), found_names(data), found_names(data_local));
    let dirs = candidate_dirs_in(home, data, data_local);
    assert(all_names(dirs@) == all);
    assert forall|i: int| 0 <= i < dirs.len() implies path_names(#[trigger] dirs@[i]).len() > 0
        && path_names(dirs@[i]).last() == APP_IDENTIFIER@ by {
        assert(all_names(dirs@)[i] == path_names(dirs@[i]));
        lemma_candidates_end(found_names(home), found_names(data), found_names(data_local), i);
    }
    dirs
}

proof fn lemma_candidates_end(
    home: Option<Seq<Seq<char>>>,
    data: Option<Seq<Seq<char>>>,
    data_local: Option<Seq<Seq<char>>>,
    i: int,
)
    requires
        0 <= i < candidates(home, data, data_local).len(),
    ensures
        candidates(home, data, data_local)[i].len() > 0,
        candidates(home, data, data_local)[i].last() == APP_IDENTIFIER@,
{
    let first = if home is Some {
        3int
    } else {
        0int
    };
    if i < first {
        assert(candidates(home, data, data_local)[i] == home_candidates(home->Some_0)[i]);
    }
}

/// The port file in a data directory.
pub fn port_file(dir: &std::path::PathBuf) -> (path: std::path::PathBuf)
    ensures
        path_names(path) == path_names(*dir).push(PORT_FILENAME@),
{
    proof {
        lemma_plain_names();
    }
    join(dir, PORT_FILENAME)
}

/// Why there is no port file, where there is no data directory.
pub open spec fn no_data_dir_text(cause: Seq<char>) -> Seq<char> {
    "agent_server: app_data_dir unavailable: "@ + cause
}

/// The port file in the application's data directory, or why there is none.
pub fn port_file_path(app_data_dir: Result<std::path::PathBuf, String>) -> (path: Result<
    std::path::PathBuf,
    String,
>)
    ensures
        match (app_data_dir, path) {
            (Ok(dir), Ok(file)) => path_names(file) == path_names(dir).push(PORT_FILENAME@),
            (Err(cause), Err(message)) => message@ == no_data_dir_text(cause@),
            _ => false,
        },
{
    match app_data_dir {
        Ok(dir) => Ok(port_file(&dir)),
        Err(cause) => Err(no_data_dir(&cause)),
    }
}

fn no_data_dir(cause: &str) -> (message: String)
    ensures
        message@ == no_data_dir_text(cause@),
{
    concat("agent_server: app_data_dir unavailable: ", cause)
}

// ---- publishing ----

/// How a port is published: `text` is written to `draft`, and `draft` is then
/// renamed to `path`, so that no reader sees half a port.
pub struct Publication {
    pub path: std::path::PathBuf,
    pub draft: std::path::PathBuf,
    pub text: String,
}

/// Whether `publication` puts `port` into the port file of the directory `dir`, by
/// way of a draft beside it.
pub open spec fn publishes(dir: Seq<Seq<char>>, port: u16, publication: Publication) -> bool {
    &&& path_names(publication.path) == dir.push(PORT_FILENAME@)
    &&& path_names(publication.draft) == dir.push(PORT_FILENAME@ + ".tmp"@)
    &&& path_names(publication.draft) != path_names(publication.path)
    &&& publication.text@ == decimal(port as nat)
}

/// Plans the publication of `port` in the application's data directory, or says
/// why there is none. The draft stands beside the port file, under another name.
pub fn publish_port(app_data_dir: Result<std::path::PathBuf, String>, port: u16) -> (planned:
    Result<Publication, String>)
    ensures
        match (app_data_dir, planned) {
            (Ok(dir), Ok(publication)) => publishes(path_names(dir), port, publication),
            (Err(cause), Err(message)) => message@ == no_data_dir_text(cause@),
            _ => false,
        },
{
    proof {
        lemma_plain_names();
    }
    match app_data_dir {
        Ok(dir) => {
            let draft = join(&dir, DRAFT_FILENAME);
            let path = port_file(&dir);
            assert(path_names(draft).last() != path_names(path).last());
            Ok(Publication { path, draft, text: decimal_text(port as u64) })
        },
        Err(cause) => Err(no_data_dir(&cause)),
    }
}

// ---- reading ----

/// The port that the text of a port file gives: a whole number up to the largest
/// port, perhaps behind a plus sign, with or without whitespace around it.
pub open spec fn port_in(text: Seq<char>) -> Option<u16> {
    let inner = trimmed(text);
    let digits = if inner.len() > 0 && inner[0] == '+' {
        inner.drop_first()
    } else {
        inner
    };
    if is_numeral(digits) && numeral_value(digits) <= u16::MAX {
        Some(numeral_value(digits) as u16)
    } else {
        None
    }
}

/// Reads the text of a port file.
pub fn parse_port(text: &str) -> (port: Option<u16>)
    ensures
        port == port_in(text@),
{
    let inner = trim(text);
    let len: usize = inner.as_str().unicode_len();
    let start: usize = if len > 0 && inner.as_str().get_char(0) == '+' {
        1
    } else {
        0
    };
    let ghost digits = inner@.subrange(start as int, len as int);
    assert(inner@.subrange(0, len as int) =~= inner@);
    assert(start == 1 ==> digits =~= inner@.drop_first());
    if start == len {
        return None;
    }
    let mut value: u32 = 0;
    let mut at: usize = start;
    let mut fits: bool = true;
    assert(inner@.subrange(start as int, start as int) =~= Seq::empty());
    while at < len
        invariant
            start <= at <= len,
            len == inner@.len(),
            digits == inner@.subrange(start as int, len as int),
            forall|i: int| 0 <= i < at - start ==> is_digit(#[trigger] digits[i]),
            fits ==> value == numeral_value(inner@.subrange(start as int, at as int)),
            fits ==> value <= u16::MAX,
            !fits ==> numeral_value(inner@.subrange(start as int, at as int)) > u16::MAX,
        ensures
            at == len || !is_digit(digits[at - start]),
        decreases len - at,
    {
        let c = inner.as_str().get_char(at);
        let ghost next = inner@.subrange(start as int, at + 1);
        assert(next.drop_last() =~= inner@.subrange(start as int, at as int));
        assert(digits[at - start] == c);
        if c < '0' || '9' < c {
            break;
        }
        if fits {
            value = value * 10 + (c as u32 - '0' as u32);
            if value > 65535 {
                fits = false;
            }
        }
        at += 1;
    }
    if at < len {
        assert(!is_numeral(digits)) by {
            assert(!is_digit(digits[at - start]));
        }
        None
    } else {
        assert(inner@.subrange(start as int, at as int) =~= digits);
        assert(is_numeral(digits));
        if fits {
            Some(value as u16)
        } else {
            None
        }
    }
}

/// What the text of one candidate gives, if the file was there.
pub open spec fn port_of(file: Option<String>) -> Option<u16> {
    match file {
        Some(text) => port_in(text@),
        None => None,
    }
}

/// Whether `port` is what the first of the candidates that gives a port gives, or
/// nothing where none gives one.
pub open spec fn is_first_port(files: Seq<Option<String>>, port: Option<u16>) -> bool {
    match port {
        Some(_) => exists|i: int|
            0 <= i < files.len() && port_of(#[trigger] files[i]) == port && forall|j: int|
                0 <= j < i ==> port_of(#[trigger] files[j]) is None,
        None => forall|i: int| 0 <= i < files.len() ==> port_of(#[trigger] files[i]) is None,
    }
}

/// The port in the first of the candidates, in order, that has one. Each
/// candidate is the text of its port file, if the file could be read.
pub fn read_port(files: &Vec<Option<String>>) -> (port: Option<u16>)
    ensures
        is_first_port(files@, port),
{
    let mut i: usize = 0;
    while i < files.len()
        invariant
            i <= files.len(),
            forall|j: int| 0 <= j < i ==> port_of(#[trigger] files@[j]) is None,
        decreases files.len() - i,
    {
        if let Some(text) = &files[i] {
            let port = parse_port(text);
            if port.is_some() {
                assert(port_of(files@[i as int]) == port);
                return port;
            }
        }
        i += 1;
    }
    None
}

// ---- waiting for a server ----

/// What to do after one look for the port.
#[derive(Debug, PartialEq, Eq, Structural, Clone, Copy)]
pub enum WaitStep {
    /// The port was found.
    Found(u16),
    /// The time is up.
    GiveUp,
    /// Look again after this many milliseconds.
    SleepMillis(u64),
}

/// Nanoseconds in a second.
pub const NANOS_PER_SEC: u128 = 1_000_000_000;

/// Milliseconds between two looks.
pub const POLL_MILLIS: u64 = 100;

/// Decides how to go on after a look that found `port` or nothing, `elapsed`
/// nanoseconds into a wait of `timeout_secs`. A port that is there is taken even
/// when the time is up.
pub fn read_port_wait(port: Option<u16>, elapsed: u128, timeout_secs: u64) -> (step: WaitStep)
    ensures
        step == wait_step(port, elapsed as nat, timeout_secs as nat),
{
    match port {
        Some(found) => WaitStep::Found(found),
        None => {
            assert(timeout_secs as u128 * NANOS_PER_SEC <= u128::MAX) by (nonlinear_arith)
                requires
                    timeout_secs <= u64::MAX,
                    NANOS_PER_SEC == 1_000_000_000,
            ;
            if elapsed >= timeout_secs as u128 * NANOS_PER_SEC {
                WaitStep::GiveUp
            } else {
                WaitStep::SleepMillis(POLL_MILLIS)
            }
        },
    }
}

/// How a wait goes on after one look.
pub open spec fn wait_step(port: Option<u16>, elapsed: nat, timeout_secs: nat) -> WaitStep {
    match port {
        Some(found) => WaitStep::Found(found),
        None => if elapsed >= timeout_secs * NANOS_PER_SEC {
            WaitStep::GiveUp
        } else {
            WaitStep::SleepMillis(POLL_MILLIS)
        },
    }
}

// ---- laws ----

/// Text that neither starts nor ends with whitespace has none to remove.
proof fn lemma_nothing_to_trim(text: Seq<char>)
    requires
        text.len() > 0,
        !is_space(text.first()),
        !is_space(text.last()),
    ensures
        trimmed(text) == text,
{
    assert(trimmed_start(text) == text);
}

/// A client reads the port that the server published: what [`publish_port`]
/// writes, [`parse_port`] reads back.
pub proof fn published_port_reads_back(port: u16)
    ensures
        port_in(decimal(port as nat)) == Some(port),
{
    let text = decimal(port as nat);
    decimal_reads_back(port as nat);
    assert(is_digit(text[0]));
    assert(is_digit(text[text.len() - 1]));
    lemma_nothing_to_trim(text);
}

/// A client finds the port that the server published: where the file with it is
/// the first among the candidates that gives a port, it is what
/// [`read_port`] finds.
pub proof fn published_port_is_found(
    files: Vec<Option<String>>,
    at: int,
    port: u16,
    found: Option<u16>,
)
    requires
        0 <= at < files.len(),
        files@[at] matches Some(text) && text@ == decimal(port as nat),
        forall|i: int| 0 <= i < at ==> port_of(#[trigger] files@[i]) is None,
        call_ensures(read_port, (&files,), found),
    ensures
        found == Some(port),
{
    published_port_reads_back(port);
    assert(port_of(files@[at]) == Some(port));
}

/// The application's directory in the user's data directory, which is where the
/// server publishes its port, is among the candidates.
pub proof fn data_dir_is_a_candidate(
    home: Option<Seq<Seq<char>>>,
    data: Seq<Seq<char>>,
    data_local: Option<Seq<Seq<char>>>,
)
    ensures
        candidates(home, Some(data), data_local).contains(data.push(APP_IDENTIFIER@)),
{
    let all = candidates(home, Some(data), data_local);
    let at = if home is Some {
        3int
    } else {
        0int
    };
    assert(all[at] == data.push(APP_IDENTIFIER@));
}

/// How a wait ends whose looks found `ports` at the times `times`: with the first
/// step that is not another sleep, or not at all.
pub open spec fn wait_end(
    ports: Seq<Option<u16>>,
    times: Seq<nat>,
    timeout_secs: nat,
) -> Option<WaitStep>
    decreases ports.len(),
{
    if ports.len() == 0 {
        None
    } else {
        let step = wait_step(ports.first(), times.first(), timeout_secs);
        if step is SleepMillis {
            wait_end(ports.drop_first(), times.drop_first(), timeout_secs)
        } else {
            Some(step)
        }
    }
}

/// A server that publishes its port while a client waits is found: where every
/// look before the first port came in time, the wait ends with that port.
pub proof fn wait_finds_first_port(
    ports: Seq<Option<u16>>,
    times: Seq<nat>,
    timeout_secs: nat,
    first: int,
)
    requires
        ports.len() == times.len(),
        0 <= first < ports.len(),
        ports[first] is Some,
        forall|i: int|
            0 <= i < first ==> (#[trigger] ports[i]) is None && times[i] < timeout_secs
                * NANOS_PER_SEC,
    ensures
        wait_end(ports, times, timeout_secs) == Some(WaitStep::Found(ports[first]->Some_0)),
    decreases first,
{
    if first > 0 {
        assert(ports[0] is None);
        let later = ports.drop_first();
        let later_times = times.drop_first();
        assert forall|i: int| 0 <= i < first - 1 implies (#[trigger] later[i]) is None
            && later_times[i] < timeout_secs * NANOS_PER_SEC by {
            assert(later[i] == ports[i + 1]);
        }
        wait_finds_first_port(later, later_times, timeout_secs, first - 1);
    }
}

/// A wait gives up only once its time is up, and only if no look so far found a
/// port.
pub proof fn wait_gives_up_late(ports: Seq<Option<u16>>, times: Seq<nat>, timeout_secs: nat)
    requires
        ports.len() == times.len(),
        wait_end(ports, times, timeout_secs) == Some(WaitStep::GiveUp),
    ensures
        exists|last: int|
            0 <= last < ports.len() && (#[trigger] times[last]) >= timeout_secs * NANOS_PER_SEC && (
            forall|i: int| 0 <= i <= last ==> (#[trigger] ports[i]) is None),
    decreases ports.len(),
{
    if wait_step(ports.first(), times.first(), timeout_secs) is SleepMillis {
        let later = ports.drop_first();
        let later_times = times.drop_first();
        wait_gives_up_late(later, later_times, timeout_secs);
        let last = choose|last: int|
            0 <= last < later.len() && (#[trigger] later_times[last]) >= timeout_secs
                * NANOS_PER_SEC && (forall|i: int| 0 <= i <= last ==> (#[trigger] later[i]) is None);
        assert(times[last + 1] == later_times[last]);
        assert forall|i: int| 0 <= i <= last + 1 implies (#[trigger] ports[i]) is None by {
            if i > 0 {
                assert(later[i - 1] == ports[i]);
            }
        }
    } else {
        assert(times[0] >= timeout_secs * NANOS_PER_SEC);
        assert forall|i: int| 0 <= i <= 0 implies (#[trigger] ports[i]) is None by {}
    }
}

/// A missing data directory is reported with the very cause, behind a remark on
/// what is missing.
pub proof fn missing_directory_is_explained(cause: Seq<char>)
    ensures
        "agent_server: app_data_dir unavailable: "@.is_prefix_of(no_data_dir_text(cause)),
        no_data_dir_text(cause).skip(
            "agent_server: app_data_dir unavailable: "@.len() as int,
        ) == cause,
{
    let remark = "agent_server: app_data_dir unavailable: "@;
    assert(no_data_dir_text(cause).skip(remark.len() as int) =~= cause);
    assert(no_data_dir_text(cause).take(remark.len() as int) =~= remark);
}

/// What is published is what a client looks for: the file stands where a client
/// looks in that directory, it gives the port, and until it is complete it has
/// another name in the same directory.
pub proof fn publication_is_what_clients_look_for(
    dir: std::path::PathBuf,
    port: u16,
    publication: Publication,
    looked_for: std::path::PathBuf,
)
    requires
        call_ensures(
            publish_port,
            (Ok::<std::path::PathBuf, String>(dir), port),
            Ok::<Publication, String>(publication),
        ),
        call_ensures(port_file, (&dir,), looked_for),
    ensures
        path_names(publication.path) == path_names(looked_for),
        path_names(publication.path) == path_names(dir).push(PORT_FILENAME@),
        port_in(publication.text@) == Some(port),
        path_names(publication.draft).drop_last() == path_names(dir),
        path_names(publication.draft).last() != PORT_FILENAME@,
{
    published_port_reads_back(port);
    assert(path_names(publication.draft).drop_last() =~= path_names(dir));
    assert(path_names(publication.draft).last() == PORT_FILENAME@ + ".tmp"@);
    reveal_strlit(".tmp");
    assert((PORT_FILENAME@ + ".tmp"@).len() > PORT_FILENAME@.len());
}

/// Any whole number that fits is read, with or without a plus sign before it and
/// whitespace around it; one that does not fit is refused.
pub proof fn numbers_that_fit_are_ports(text: Seq<char>, digits: Seq<char>)
    requires
        is_numeral(digits),
        trimmed(text) == digits || trimmed(text) == seq!['+'] + digits,
    ensures
        numeral_value(digits) <= 65535 ==> (port_in(text) matches Some(port) && port
            == numeral_value(digits)),
        numeral_value(digits) > 65535 ==> port_in(text) is None,
{
    assert(is_digit(digits[0]));
    assert((seq!['+'] + digits).drop_first() =~= digits);
}

/// Nothing but a whole number is read as a port, and it is read as what it counts.
pub proof fn only_numbers_are_ports(text: Seq<char>) -> (digits: Seq<char>)
    requires
        port_in(text) is Some,
    ensures
        is_numeral(digits),
        trimmed(text) == digits || trimmed(text) == seq!['+'] + digits,
        numeral_value(digits) == port_in(text)->Some_0,
{
    let inner = trimmed(text);
    if inner.len() > 0 && inner[0] == '+' {
        assert(inner =~= seq!['+'] + inner.drop_first());
        inner.drop_first()
    } else {
        inner
    }
}

/// Each directory that the user has adds its own candidates, whatever else there
/// is: those below the home directory first, then that in the data directory, then
/// that in the local data directory.
pub proof fn directories_add_their_own_candidates(
    home: Option<Seq<Seq<char>>>,
    data: Option<Seq<Seq<char>>>,
    data_local: Option<Seq<Seq<char>>>,
)
    ensures
        candidates(home, data, data_local) == candidates(home, None, None) + candidates(
            None,
            data,
            None,
        ) + candidates(None, None, data_local),
        candidates(None, None, None).len() == 0,
        data is Some ==> candidates(None, data, None) == seq![data->Some_0.push(APP_IDENTIFIER@)],
        data_local is Some ==> candidates(None, None, data_local) == seq![
            data_local->Some_0.push(APP_IDENTIFIER@),
        ],
{
    assert(candidates(home, data, data_local) =~= candidates(home, None, None) + candidates(
        None,
        data,
        None,
    ) + candidates(None, None, data_local));
    if let Some(dir) = data {
        assert(candidates(None, data, None) =~= seq![dir.push(APP_IDENTIFIER@)]);
    }
    if let Some(dir) = data_local {
        assert(candidates(None, None, data_local) =~= seq![dir.push(APP_IDENTIFIER@)]);
    }
}

/// The candidates below a home directory are the same for every user: three, one
/// for each system, that differ between users by the home directory alone.
pub proof fn homes_have_the_same_candidates(home: Seq<Seq<char>>)
    ensures
        candidates(Some(home), None, None).len() == 3,
        forall|i: int|
            0 <= i < 3 ==> #[trigger] candidates(Some(home), None, None)[i] == home + candidates(
                Some(Seq::empty()),
                None,
                None,
            )[i],
        candidates(Some(home), None, None)[0].drop_last().last() == "Application Support"@,
        candidates(Some(home), None, None)[1].drop_last().last() == "share"@,
        candidates(Some(home), None, None)[2].drop_last().last() == "Roaming"@,
        forall|i: int|
            0 <= i < 3 ==> (#[trigger] candidates(Some(home), None, None)[i]).last()
                == APP_IDENTIFIER@,
{
    let none = Seq::<Seq<char>>::empty();
    assert forall|i: int| 0 <= i < 3 implies #[trigger] candidates(Some(home), None, None)[i]
        == home + candidates(Some(none), None, None)[i] by {
        assert(home_candidates(home)[i] =~= home + home_candidates(none)[i]);
    }
}

/// A look that found a port ends the wait with it, however late it is; one that
/// found none ends it just when the time is up, and else leads to another look a
/// tenth of a second later.
pub proof fn looks_end_the_wait_or_go_on(port: Option<u16>, elapsed: nat, timeout_secs: nat)
    ensures
        port matches Some(found) ==> wait_step(port, elapsed, timeout_secs) == WaitStep::Found(
            found,
        ),
        port is None && elapsed >= timeout_secs * 1_000_000_000 ==> wait_step(
            port,
            elapsed,
            timeout_secs,
        ) == WaitStep::GiveUp,
        port is None && elapsed < timeout_secs * 1_000_000_000 ==> wait_step(
            port,
            elapsed,
            timeout_secs,
        ) == WaitStep::SleepMillis(100),
{
}

/// The candidates are taken in order: the first whose file gives a port decides,
/// whatever comes after it, and a port is found just when some file gives one.
pub proof fn first_port_decides(files: Vec<Option<String>>, found: Option<u16>, at: int)
    requires
        call_ensures(read_port, (&files,), found),
    ensures
        0 <= at < files.len() && port_of(files@[at]) is Some && (forall|i: int|
            0 <= i < at ==> port_of(#[trigger] files@[i]) is None) ==> found == port_of(files@[at]),
        0 <= at < files.len() && port_of(files@[at]) is Some ==> found is Some,
        (forall|i: int| 0 <= i < files.len() ==> port_of(#[trigger] files@[i]) is None)
            ==> found is None,
{
}

/// A file gives the port in its text, and one that could not be read gives none.
pub proof fn files_give_the_port_in_their_text(text: String)
    ensures
        port_of(Some(text)) == port_in(text@),
        port_of(None) is None,
{
}

/// A port file is read as the port in its text.
pub proof fn port_file_is_read_as_its_text(text: &str, port: Option<u16>)
    requires
        call_ensures(parse_port, (text,), port),
    ensures
        port == port_in(text@),
{
}

/// A look goes on as the clock says, for every clock and every time that there is.
pub proof fn looks_go_by_the_clock(
    port: Option<u16>,
    elapsed: u128,
    timeout_secs: u64,
    step: WaitStep,
)
    requires
        call_ensures(read_port_wait, (port, elapsed, timeout_secs), step),
    ensures
        port matches Some(found) ==> step == WaitStep::Found(found),
        port is None ==> (step is GiveUp <==> elapsed >= timeout_secs * 1_000_000_000),
        port is None && !(step is GiveUp) ==> step == WaitStep::SleepMillis(100),
{
}

/// The directories that are looked through are the candidates of those that the user
/// has, in order; whatever the user has, each ends in the application's own.
pub proof fn candidates_are_looked_through(
    home: Option<std::path::PathBuf>,
    data: Option<std::path::PathBuf>,
    data_local: Option<std::path::PathBuf>,
    dirs: Vec<std::path::PathBuf>,
    here: Vec<std::path::PathBuf>,
    i: int,
)
    requires
        call_ensures(candidate_dirs_in, (home, data, data_local), dirs),
        call_ensures(candidate_dirs, (), here),
    ensures
        dirs.len() == candidates(
            found_names(home),
            found_names(data),
            found_names(data_local),
        ).len(),
        0 <= i < dirs.len() ==> path_names(dirs@[i]) == candidates(
            found_names(home),
            found_names(data),
            found_names(data_local),
        )[i],
        home matches Some(dir) ==> found_names(home) == Some(path_names(dir)),
        home is None ==> found_names(home) is None,
        0 <= i < here.len() ==> path_names(here@[i]).last() == APP_IDENTIFIER@,
{
    let all = candidates(found_names(home), found_names(data), found_names(data_local));
    assert(all_names(dirs@).len() == all.len());
    if 0 <= i < dirs.len() {
        assert(all_names(dirs@)[i] == all[i]);
    }
}

/// The port file stands in the data directory; without one, the cause is given.
pub proof fn port_file_stands_in_the_data_directory(
    app_data_dir: Result<std::path::PathBuf, String>,
    path: Result<std::path::PathBuf, String>,
    planned: Result<Publication, String>,
    port: u16,
)
    requires
        call_ensures(port_file_path, (app_data_dir,), path),
        call_ensures(publish_port, (app_data_dir, port), planned),
    ensures
        path is Ok <==> app_data_dir is Ok,
        planned is Ok <==> app_data_dir is Ok,
        app_data_dir matches Ok(dir) ==> path_names(path->Ok_0) == path_names(dir).push(
            PORT_FILENAME@,
        ),
        app_data_dir matches Err(cause) ==> path->Err_0@
            == "agent_server: app_data_dir unavailable: "@ + cause@ && planned->Err_0@
            == path->Err_0@,
{
}

} // verus!
