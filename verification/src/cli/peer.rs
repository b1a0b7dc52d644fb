//! `herdr peer`: peers from the command line.

use vstd::prelude::*;

use crate::api::schema::peers::{
    PeerAddParams, PeerConnectionKind, PeerInfo, PeerTargetSpec, PeerWorkspaceCreateParams,
    PeerWorkspaceOpenParams,
};
use crate::json::{encode, get};
use crate::text::{
    after_last_char, before_first_char, cat2, cat3, cat5, chars_of, opt_clone, starts_with, str_eq,
    to_decimal,
};

verus! {

/// How long `peer connect` waits for a peer to come up, in seconds. An ssh peer
/// has to open a bridge, start a server on the far side and identify it.
pub const PEER_CONNECT_TIMEOUT_SECS: u64 = 45;

/// How long `peer connect` waits between two looks, in milliseconds.
pub const PEER_CONNECT_POLL_MS: u64 = 200;

pub const LIST_USAGE: &'static str = "usage: herdr peer list [--json]";

pub const ADD_USAGE: &'static str =
    "usage: herdr peer add [name] --socket PATH | --ssh DESTINATION [--peer-session NAME] [--yes] [--skip-ssh-check] [--json]\n       name defaults to the ssh destination's host";

pub const CONNECT_USAGE: &'static str =
    "usage: herdr peer connect <destination> [--name NAME] [--peer-session NAME] [--new] [--yes] [--skip-ssh-check]\n       sets up ssh, adds the peer, waits for it, and opens a workspace";

pub const OPEN_USAGE: &'static str =
    "usage: herdr peer open <target> [--peer NAME] [--label TEXT] [--focus] [--no-focus] [--takeover]";

pub const REMOVE_USAGE: &'static str = "usage: herdr peer remove <name> [--json]";

pub const SETUP_USAGE: &'static str = "usage: herdr peer setup-ssh <destination> [--yes]";

/// The arguments' texts.
pub open spec fn texts(args: Seq<String>) -> Seq<Seq<char>> {
    args.map_values(|s: String| s@)
}

/// The argument is an option.
pub open spec fn is_option(arg: Seq<char>) -> bool {
    crate::text::has_prefix(arg, "-"@)
}

/// The first argument, when it is no option.
pub open spec fn leading(args: Seq<Seq<char>>) -> Option<Seq<char>> {
    if args.len() > 0 && !is_option(args[0]) {
        Some(args[0])
    } else {
        None
    }
}

pub open spec fn missing(option: Seq<char>) -> Seq<char> {
    "missing value for "@ + option
}

pub open spec fn unknown(option: Seq<char>) -> Seq<char> {
    "unknown option: "@ + option
}

fn leading_arg(args: &[String]) -> (r: Option<&String>)
    ensures
        match r {
            Some(arg) => args@.len() > 0 && *arg == args@[0] && leading(texts(args@)) == Some(arg@),
            None => leading(texts(args@)) is None,
        },
{
    if args.len() > 0 && !starts_with(args[0].as_str(), "-") {
        Some(&args[0])
    } else {
        None
    }
}

/// What an option takes as its value.
fn value_of(args: &[String], at: usize) -> (r: Result<String, String>)
    requires
        at < args@.len(),
    ensures
        match r {
            Ok(value) => at + 1 < args@.len() && value@ == texts(args@)[at + 1],
            Err(error) => at + 1 >= args@.len() && error@ == missing(texts(args@)[at as int]),
        },
{
    if args.len() - at > 1 {
        Ok(args[at + 1].clone())
    } else {
        Err(cat2("missing value for ", args[at].as_str()))
    }
}

/// The options of `peer add`.
#[derive(Debug, PartialEq, Eq)]
pub struct AddOptions {
    pub socket: Option<String>,
    pub ssh: Option<String>,
    pub session: Option<String>,
    pub json: bool,
    pub assume_yes: bool,
    pub skip_ssh_check: bool,
}

/// The contents of [`AddOptions`].
pub struct AddOptionsView {
    pub socket: Option<Seq<char>>,
    pub ssh: Option<Seq<char>>,
    pub session: Option<Seq<char>>,
    pub json: bool,
    pub assume_yes: bool,
    pub skip_ssh_check: bool,
}

impl View for AddOptions {
    type V = AddOptionsView;

    open spec fn view(&self) -> AddOptionsView {
        AddOptionsView {
            socket: crate::text::opt_view(self.socket),
            ssh: crate::text::opt_view(self.ssh),
            session: crate::text::opt_view(self.session),
            json: self.json,
            assume_yes: self.assume_yes,
            skip_ssh_check: self.skip_ssh_check,
        }
    }
}

/// What these options come to, on top of those read so far. A later one replaces
/// an earlier one.
pub open spec fn add_options(o: AddOptionsView, args: Seq<Seq<char>>) -> Result<
    AddOptionsView,
    Seq<char>,
>
    decreases args.len(),
{
    if args.len() == 0 {
        Ok(o)
    } else if args[0] == "--socket"@ {
        if args.len() < 2 {
            Err(missing(args[0]))
        } else {
            add_options(AddOptionsView { socket: Some(args[1]), ..o }, args.skip(2))
        }
    } else if args[0] == "--ssh"@ {
        if args.len() < 2 {
            Err(missing(args[0]))
        } else {
            add_options(AddOptionsView { ssh: Some(args[1]), ..o }, args.skip(2))
        }
    } else if args[0] == "--peer-session"@ {
        if args.len() < 2 {
            Err(missing(args[0]))
        } else {
            add_options(AddOptionsView { session: Some(args[1]), ..o }, args.skip(2))
        }
    } else if args[0] == "--json"@ {
        add_options(AddOptionsView { json: true, ..o }, args.skip(1))
    } else if args[0] == "--yes"@ || args[0] == "-y"@ {
        add_options(AddOptionsView { assume_yes: true, ..o }, args.skip(1))
    } else if args[0] == "--skip-ssh-check"@ {
        add_options(AddOptionsView { skip_ssh_check: true, ..o }, args.skip(1))
    } else {
        Err(unknown(args[0]))
    }
}

/// No option of `peer add`.
pub open spec fn no_add_options() -> AddOptionsView {
    AddOptionsView {
        socket: None,
        ssh: None,
        session: None,
        json: false,
        assume_yes: false,
        skip_ssh_check: false,
    }
}

fn read_add_options(args: &[String], from: usize) -> (r: Result<AddOptions, String>)
    requires
        from <= args@.len(),
    ensures
        match r {
            Ok(options) => add_options(no_add_options(), texts(args@).skip(from as int)) == Ok::<
                AddOptionsView,
                Seq<char>,
            >(options@),
            Err(error) => add_options(no_add_options(), texts(args@).skip(from as int)) == Err::<
                AddOptionsView,
                Seq<char>,
            >(error@),
        },
{
    let ghost all = texts(args@);
    let mut o = AddOptions {
        socket: None,
        ssh: None,
        session: None,
        json: false,
        assume_yes: false,
        skip_ssh_check: false,
    };
    let mut i: usize = from;
    while i < args.len()
        invariant
            all == texts(args@),
            from <= i <= args@.len(),
            add_options(no_add_options(), all.skip(from as int)) == add_options(
                o@,
                all.skip(i as int),
            ),
        decreases args@.len() - i,
    {
        let ghost rest = all.skip(i as int);
        assert(rest[0] == all[i as int]);
        assert(rest.skip(1) =~= all.skip(i + 1));
        assert(rest.len() >= 2 ==> rest.skip(2) =~= all.skip(i + 2));
        let arg = args[i].as_str();
        if str_eq(arg, "--socket") {
            match value_of(args, i) {
                Ok(value) => {
                    o.socket = Some(value);
                },
                Err(error) => {
                    return Err(error);
                },
            }
            i += 2;
        } else if str_eq(arg, "--ssh") {
            match value_of(args, i) {
                Ok(value) => {
                    o.ssh = Some(value);
                },
                Err(error) => {
                    return Err(error);
                },
            }
            i += 2;
        } else if str_eq(arg, "--peer-session") {
            match value_of(args, i) {
                Ok(value) => {
                    o.session = Some(value);
                },
                Err(error) => {
                    return Err(error);
                },
            }
            i += 2;
        } else if str_eq(arg, "--json") {
            o.json = true;
            i += 1;
        } else if str_eq(arg, "--yes") || str_eq(arg, "-y") {
            o.assume_yes = true;
            i += 1;
        } else if str_eq(arg, "--skip-ssh-check") {
            o.skip_ssh_check = true;
            i += 1;
        } else {
            return Err(cat2("unknown option: ", arg));
        }
    }
    Ok(o)
}

/// The target these options name.
pub open spec fn target_of(
    socket: Option<Seq<char>>,
    ssh: Option<Seq<char>>,
    session: Option<Seq<char>>,
) -> Result<crate::app::peers::TargetView, Seq<char>> {
    match (socket, ssh) {
        (Some(_), Some(_)) => Err("use either --socket or --ssh, not both"@),
        (None, None) => Err("herdr peer add needs --socket PATH or --ssh DESTINATION"@),
        (Some(path), None) => if session is Some {
            Err("--peer-session applies to --ssh peers only"@)
        } else {
            Ok(crate::app::peers::TargetView::SocketPath(path))
        },
        (None, Some(destination)) => Ok(
            crate::app::peers::TargetView::Ssh { destination, session },
        ),
    }
}

/// The target the options of `peer add` name.
pub fn peer_target_from_args(
    socket: Option<String>,
    ssh: Option<String>,
    session: Option<String>,
) -> (r: Result<PeerTargetSpec, String>)
    ensures
        match target_of(
            crate::text::opt_view(socket),
            crate::text::opt_view(ssh),
            crate::text::opt_view(session),
        ) {
            Ok(target) => r is Ok && r->Ok_0@ == target,
            Err(error) => r is Err && r->Err_0@ == error,
        },
{
    match socket {
        Some(path) => match ssh {
            Some(_) => Err("use either --socket or --ssh, not both".to_owned()),
            None => if session.is_some() {
                Err("--peer-session applies to --ssh peers only".to_owned())
            } else {
                Ok(PeerTargetSpec::SocketPath { path })
            },
        },
        None => match ssh {
            Some(destination) => Ok(PeerTargetSpec::Ssh { destination, session }),
            None => Err("herdr peer add needs --socket PATH or --ssh DESTINATION".to_owned()),
        },
    }
}

/// An opening or closing bracket.
pub open spec fn is_bracket(c: char) -> bool {
    c == '[' || c == ']'
}

/// Without the brackets at its beginning.
pub open spec fn without_leading_brackets(s: Seq<char>) -> Seq<char>
    decreases s.len(),
{
    if s.len() > 0 && is_bracket(s[0]) {
        without_leading_brackets(s.skip(1))
    } else {
        s
    }
}

/// Without the brackets at its end.
pub open spec fn without_trailing_brackets(s: Seq<char>) -> Seq<char>
    decreases s.len(),
{
    if s.len() > 0 && is_bracket(s.last()) {
        without_trailing_brackets(s.drop_last())
    } else {
        s
    }
}

/// The host of a destination: what follows the user, without a port and without
/// brackets.
pub open spec fn host_of(destination: Seq<char>) -> Seq<char> {
    let host = destination.skip(
        crate::text::after_last(destination, '@', destination.len() as int),
    );
    let named = host.take(crate::text::find_from(host, ':', 0));
    without_trailing_brackets(without_leading_brackets(named))
}

/// What a peer is called that was added without a name: the host it lives on, or
/// the whole destination when it names none.
pub open spec fn default_name(destination: Seq<char>) -> Seq<char> {
    if host_of(destination).len() == 0 {
        destination
    } else {
        host_of(destination)
    }
}

fn trim_brackets(s: &str) -> (r: &str)
    ensures
        r@ == without_trailing_brackets(without_leading_brackets(s@)),
{
    let chars = chars_of(s);
    let mut from: usize = 0;
    assert(s@.skip(0) =~= s@);
    while from < chars.len() && (chars[from] == '[' || chars[from] == ']')
        invariant
            chars@ == s@,
            from <= chars@.len(),
            without_leading_brackets(s@) == without_leading_brackets(s@.skip(from as int)),
        decreases chars@.len() - from,
    {
        assert(s@.skip(from as int).skip(1) =~= s@.skip(from + 1));
        from += 1;
    }
    let mut to: usize = chars.len();
    assert(s@.subrange(from as int, to as int) =~= s@.skip(from as int));
    while from < to && (chars[to - 1] == '[' || chars[to - 1] == ']')
        invariant
            chars@ == s@,
            from <= to <= chars@.len(),
            without_trailing_brackets(without_leading_brackets(s@)) == without_trailing_brackets(
                s@.subrange(from as int, to as int),
            ),
        decreases to - from,
    {
        assert(s@.subrange(from as int, to as int).drop_last() =~= s@.subrange(
            from as int,
            to as int - 1,
        ));
        to -= 1;
    }
    s.substring_char(from, to)
}

/// What a peer is called that was added without a name.
///
/// The user is dropped because it names an account and not a machine.
pub fn peer_name_from_destination(destination: &str) -> (r: String)
    ensures
        r@ == default_name(destination@),
{
    let host = trim_brackets(before_first_char(after_last_char(destination, '@'), ':'));
    if host.is_empty() {
        destination.to_owned()
    } else {
        host.to_owned()
    }
}

/// What `peer add` is to do.
#[derive(Debug, PartialEq, Eq)]
pub struct AddCommand {
    pub name: String,
    pub target: PeerTargetSpec,
    /// The destination to prepare first, unless that is skipped.
    pub prepare: Option<String>,
    pub assume_yes: bool,
    pub json: bool,
}

/// What the arguments of `peer add` come to.
pub open spec fn reads_add(args: Seq<Seq<char>>, r: Result<AddCommand, String>) -> bool {
    let from = if leading(args) is Some {
        1int
    } else {
        0int
    };
    match add_options(no_add_options(), args.skip(from)) {
        Err(error) => r is Err && r->Err_0@ == error,
        Ok(o) => match target_of(o.socket, o.ssh, o.session) {
            Err(error) => r is Err && r->Err_0@ == error,
            Ok(target) => if leading(args) is None && o.ssh is None {
                r is Err && r->Err_0@ == ADD_USAGE@
            } else {
                &&& r is Ok
                &&& r->Ok_0.name@ == match leading(args) {
                    Some(name) => name,
                    None => default_name(o.ssh->0),
                }
                &&& r->Ok_0.target@ == target
                &&& crate::text::opt_view(r->Ok_0.prepare) == if o.skip_ssh_check {
                    None
                } else {
                    o.ssh
                }
                &&& r->Ok_0.assume_yes == o.assume_yes
                &&& r->Ok_0.json == o.json
            },
        },
    }
}

/// Reads the arguments of `peer add`.
pub fn peer_add(args: &[String]) -> (r: Result<AddCommand, String>)
    ensures
        reads_add(texts(args@), r),
{
    // The name is optional, so only a leading argument can be one.
    let name = leading_arg(args);
    let from: usize = if name.is_some() {
        1
    } else {
        0
    };
    let o = match read_add_options(args, from) {
        Ok(o) => o,
        Err(error) => {
            return Err(error);
        },
    };
    let destination = crate::text::opt_clone(&o.ssh);
    let target = match peer_target_from_args(o.socket, o.ssh, o.session) {
        Ok(target) => target,
        Err(error) => {
            return Err(error);
        },
    };
    let name = match name {
        Some(name) => name.clone(),
        None => match &destination {
            Some(destination) => peer_name_from_destination(destination.as_str()),
            None => {
                return Err(ADD_USAGE.to_owned());
            },
        },
    };
    Ok(
        AddCommand {
            name,
            target,
            prepare: if o.skip_ssh_check {
                None
            } else {
                destination
            },
            assume_yes: o.assume_yes,
            json: o.json,
        },
    )
}

/// The exit code of a command that failed.
pub const EXIT_FAILED: i32 = 1;

/// The exit code of a command that was not understood.
pub const EXIT_MISUSED: i32 = 2;

/// What an add does next.
#[derive(Debug, PartialEq, Eq)]
pub enum AddStep {
    /// Settle what an ssh peer needs a human for; the outcome goes to
    /// [`add_prepared`]. It happens here because only a command has a terminal to
    /// be asked at.
    Prepare(String),
    /// Send the request; the answer goes to [`report_peers`].
    Send,
    /// This is shown, nothing is sent, and it has failed with [`EXIT_FAILED`].
    Failed(String),
}

/// The first step of an add.
pub fn add_begin(command: &AddCommand) -> (r: AddStep)
    ensures
        r == match command.prepare {
            Some(destination) => AddStep::Prepare(destination),
            None => AddStep::Send,
        },
{
    match &command.prepare {
        Some(destination) => AddStep::Prepare(destination.clone()),
        None => AddStep::Send,
    }
}

/// The step after ssh was prepared.
pub fn add_prepared(prepared: Result<(), String>) -> (r: AddStep)
    ensures
        r == match prepared {
            Ok(_) => AddStep::Send,
            Err(error) => AddStep::Failed(error),
        },
{
    match prepared {
        Ok(_) => AddStep::Send,
        Err(error) => AddStep::Failed(error),
    }
}

/// The options of `peer connect`.
#[derive(Debug, PartialEq, Eq)]
pub struct ConnectOptions {
    pub name: Option<String>,
    pub session: Option<String>,
    pub assume_yes: bool,
    pub skip_ssh_check: bool,
    pub new_workspace: bool,
}

/// The contents of [`ConnectOptions`].
pub struct ConnectOptionsView {
    pub name: Option<Seq<char>>,
    pub session: Option<Seq<char>>,
    pub assume_yes: bool,
    pub skip_ssh_check: bool,
    pub new_workspace: bool,
}

impl View for ConnectOptions {
    type V = ConnectOptionsView;

    open spec fn view(&self) -> ConnectOptionsView {
        ConnectOptionsView {
            name: crate::text::opt_view(self.name),
            session: crate::text::opt_view(self.session),
            assume_yes: self.assume_yes,
            skip_ssh_check: self.skip_ssh_check,
            new_workspace: self.new_workspace,
        }
    }
}

/// What these options come to, on top of those read so far.
pub open spec fn connect_options(o: ConnectOptionsView, args: Seq<Seq<char>>) -> Result<
    ConnectOptionsView,
    Seq<char>,
>
    decreases args.len(),
{
    if args.len() == 0 {
        Ok(o)
    } else if args[0] == "--name"@ {
        if args.len() < 2 {
            Err(missing(args[0]))
        } else {
            connect_options(ConnectOptionsView { name: Some(args[1]), ..o }, args.skip(2))
        }
    } else if args[0] == "--peer-session"@ {
        if args.len() < 2 {
            Err(missing(args[0]))
        } else {
            connect_options(ConnectOptionsView { session: Some(args[1]), ..o }, args.skip(2))
        }
    } else if args[0] == "--yes"@ || args[0] == "-y"@ {
        connect_options(ConnectOptionsView { assume_yes: true, ..o }, args.skip(1))
    } else if args[0] == "--skip-ssh-check"@ {
        connect_options(ConnectOptionsView { skip_ssh_check: true, ..o }, args.skip(1))
    } else if args[0] == "--new"@ {
        connect_options(ConnectOptionsView { new_workspace: true, ..o }, args.skip(1))
    } else {
        Err(unknown(args[0]))
    }
}

/// No option of `peer connect`.
pub open spec fn no_connect_options() -> ConnectOptionsView {
    ConnectOptionsView {
        name: None,
        session: None,
        assume_yes: false,
        skip_ssh_check: false,
        new_workspace: false,
    }
}

fn read_connect_options(args: &[String]) -> (r: Result<ConnectOptions, String>)
    requires
        args@.len() > 0,
    ensures
        match r {
            Ok(options) => connect_options(no_connect_options(), texts(args@).skip(1)) == Ok::<
                ConnectOptionsView,
                Seq<char>,
            >(options@),
            Err(error) => connect_options(no_connect_options(), texts(args@).skip(1)) == Err::<
                ConnectOptionsView,
                Seq<char>,
            >(error@),
        },
{
    let ghost all = texts(args@);
    let mut o = ConnectOptions {
        name: None,
        session: None,
        assume_yes: false,
        skip_ssh_check: false,
        new_workspace: false,
    };
    let mut i: usize = 1;
    while i < args.len()
        invariant
            all == texts(args@),
            1 <= i <= args@.len(),
            connect_options(no_connect_options(), all.skip(1)) == connect_options(
                o@,
                all.skip(i as int),
            ),
        decreases args@.len() - i,
    {
        let ghost rest = all.skip(i as int);
        assert(rest[0] == all[i as int]);
        assert(rest.skip(1) =~= all.skip(i + 1));
        assert(rest.len() >= 2 ==> rest.skip(2) =~= all.skip(i + 2));
        let arg = args[i].as_str();
        if str_eq(arg, "--name") {
            match value_of(args, i) {
                Ok(value) => {
                    o.name = Some(value);
                },
                Err(error) => {
                    return Err(error);
                },
            }
            i += 2;
        } else if str_eq(arg, "--peer-session") {
            match value_of(args, i) {
                Ok(value) => {
                    o.session = Some(value);
                },
                Err(error) => {
                    return Err(error);
                },
            }
            i += 2;
        } else if str_eq(arg, "--yes") || str_eq(arg, "-y") {
            o.assume_yes = true;
            i += 1;
        } else if str_eq(arg, "--skip-ssh-check") {
            o.skip_ssh_check = true;
            i += 1;
        } else if str_eq(arg, "--new") {
            o.new_workspace = true;
            i += 1;
        } else {
            return Err(cat2("unknown option: ", arg));
        }
    }
    Ok(o)
}

/// What `peer connect` is to do.
#[derive(Debug, PartialEq, Eq)]
pub struct ConnectCommand {
    pub destination: String,
    pub name: String,
    pub session: Option<String>,
    pub assume_yes: bool,
    pub skip_ssh_check: bool,
    pub new_workspace: bool,
}

/// What the arguments of `peer connect` come to.
pub open spec fn reads_connect(args: Seq<Seq<char>>, r: Result<ConnectCommand, String>) -> bool {
    match leading(args) {
        None => r is Err && r->Err_0@ == CONNECT_USAGE@,
        Some(destination) => match connect_options(no_connect_options(), args.skip(1)) {
            Err(error) => r is Err && r->Err_0@ == error,
            Ok(o) => {
                &&& r is Ok
                &&& r->Ok_0.destination@ == destination
                &&& r->Ok_0.name@ == match o.name {
                    Some(name) => name,
                    None => default_name(destination),
                }
                &&& crate::text::opt_view(r->Ok_0.session) == o.session
                &&& r->Ok_0.assume_yes == o.assume_yes
                &&& r->Ok_0.skip_ssh_check == o.skip_ssh_check
                &&& r->Ok_0.new_workspace == o.new_workspace
            },
        },
    }
}

/// Reads the arguments of `peer connect`: everything between an ssh destination
/// and a shell on it.
pub fn peer_connect(args: &[String]) -> (r: Result<ConnectCommand, String>)
    ensures
        reads_connect(texts(args@), r),
{
    let destination = match leading_arg(args) {
        Some(destination) => destination.clone(),
        None => {
            return Err(CONNECT_USAGE.to_owned());
        },
    };
    let o = match read_connect_options(args) {
        Ok(o) => o,
        Err(error) => {
            return Err(error);
        },
    };
    let name = match o.name {
        Some(name) => name,
        None => peer_name_from_destination(destination.as_str()),
    };
    Ok(
        ConnectCommand {
            destination,
            name,
            session: o.session,
            assume_yes: o.assume_yes,
            skip_ssh_check: o.skip_ssh_check,
            new_workspace: o.new_workspace,
        },
    )
}

/// The peer has this name.
pub open spec fn is_named(name: Seq<char>) -> spec_fn(PeerInfo) -> bool {
    |p: PeerInfo| p.name@ == name
}

fn peer_position(peers: &Vec<PeerInfo>, name: &str) -> (r: usize)
    ensures
        r == crate::search::first(peers@, is_named(name@), 0),
        r <= peers@.len(),
{
    let mut i: usize = 0;
    while i < peers.len() && !str_eq(peers[i].name.as_str(), name)
        invariant
            i <= peers@.len(),
            crate::search::first(peers@, is_named(name@), 0) == crate::search::first(
                peers@,
                is_named(name@),
                i as int,
            ),
        decreases peers@.len() - i,
    {
        i += 1;
    }
    i
}

/// Whether a peer is configured. Connecting to one that is adds nothing: connect
/// is what someone runs again after a restart.
pub fn peer_is_configured(peers: &Vec<PeerInfo>, name: &str) -> (r: bool)
    ensures
        r == crate::search::any(peers@, is_named(name@)),
{
    peer_position(peers, name) < peers.len()
}

/// What a look at a peer that is waited for comes to.
#[derive(Debug, PartialEq, Eq)]
pub enum Awaited {
    /// It is connected, and stands at this position.
    Connected(usize),
    /// It never will be, for this reason.
    Failed(String),
    /// Look again later.
    NotYet,
}

/// Why waiting for a peer ends without it.
pub open spec fn wait_failure(
    peers: Seq<PeerInfo>,
    name: Seq<char>,
    timed_out: bool,
    timeout_secs: u64,
) -> Option<Seq<char>> {
    match crate::search::find(peers, is_named(name)) {
        None => Some("peer '"@ + name + "' is no longer configured"@),
        Some(peer) => match peer.connection {
            PeerConnectionKind::Connected => None,
            PeerConnectionKind::Error => Some(
                match peer.error {
                    Some(error) => error@,
                    None => "peer '"@ + name + "' could not be reached"@,
                },
            ),
            _ => if timed_out {
                let told = "peer '"@ + name + "' did not connect within "@ + crate::text::decimal(
                    timeout_secs as nat,
                ) + "s"@;
                Some(
                    match peer.error {
                        Some(error) => told + ": "@ + error@,
                        None => told,
                    },
                )
            } else {
                None
            },
        },
    }
}

/// What one look at a peer that is waited for comes to. A peer in error is not
/// waited out: nothing retries it, so the deadline would only add delay.
pub fn wait_for_connected_peer(
    peers: &Vec<PeerInfo>,
    name: &str,
    timed_out: bool,
    timeout_secs: u64,
) -> (r: Awaited)
    ensures
        match wait_failure(peers@, name@, timed_out, timeout_secs) {
            Some(reason) => r is Failed && r->Failed_0@ == reason,
            None => {
                let at = crate::search::first(peers@, is_named(name@), 0);
                &&& at < peers@.len()
                &&& if peers@[at].connection == PeerConnectionKind::Connected {
                    r == Awaited::Connected(at as usize)
                } else {
                    r == Awaited::NotYet
                }
            },
        },
{
    let at = peer_position(peers, name);
    if at >= peers.len() {
        return Awaited::Failed(cat3("peer '", name, "' is no longer configured"));
    }
    match peers[at].connection {
        PeerConnectionKind::Connected => Awaited::Connected(at),
        PeerConnectionKind::Error => Awaited::Failed(
            match &peers[at].error {
                Some(error) => error.clone(),
                None => cat3("peer '", name, "' could not be reached"),
            },
        ),
        _ => {
            if !timed_out {
                return Awaited::NotYet;
            }
            let seconds = to_decimal(timeout_secs);
            let mut told = cat5("peer '", name, "' did not connect within ", seconds.as_str(), "s");
            if let Some(error) = &peers[at].error {
                told.append(": ");
                told.append(error.as_str());
            }
            Awaited::Failed(told)
        },
    }
}

/// Where a connect lands.
#[derive(Debug, PartialEq, Eq)]
pub enum Landing {
    Open(PeerWorkspaceOpenParams),
    Create(PeerWorkspaceCreateParams),
}

/// The workspace is focused.
pub open spec fn is_focused() -> spec_fn(crate::api::schema::workspaces::WorkspaceInfo) -> bool {
    |w: crate::api::schema::workspaces::WorkspaceInfo| w.focused
}

/// The workspace a connect lands in: the focused one, or the first.
pub open spec fn landing_workspace(peer: PeerInfo) -> Option<
    crate::api::schema::workspaces::WorkspaceInfo,
> {
    match crate::search::find(peer.workspaces@, is_focused()) {
        Some(workspace) => Some(workspace),
        None => if peer.workspaces@.len() > 0 {
            Some(peer.workspaces@[0])
        } else {
            None
        },
    }
}

/// A connect to this peer, by this name, lands there.
pub open spec fn lands(
    peer: PeerInfo,
    name: Seq<char>,
    new_workspace: bool,
    landing: Landing,
) -> bool {
    match landing_workspace(peer) {
        Some(workspace) if !new_workspace => {
            &&& landing is Open
            &&& (landing->Open_0).target@ == workspace.workspace_id@
            &&& crate::text::opt_view((landing->Open_0).name) == Some(name)
            &&& (landing->Open_0).label is None
            &&& (landing->Open_0).focus
            &&& !(landing->Open_0).takeover
        },
        _ => {
            &&& landing is Create
            &&& (landing->Create_0).name@ == name
            &&& (landing->Create_0).cwd is None
            &&& (landing->Create_0).label is None
            &&& (landing->Create_0).focus
        },
    }
}

/// Where a connect lands. A peer with workspaces already has work on it; only a
/// bare one, or one that is asked for a new workspace, has one made.
pub fn connect_landing(peer: &PeerInfo, name: &str, new_workspace: bool) -> (r: Landing)
    ensures
        lands(*peer, name@, new_workspace, r),
{
    let workspaces = &peer.workspaces;
    let mut at: usize = 0;
    while at < workspaces.len() && !workspaces[at].focused
        invariant
            workspaces == &peer.workspaces,
            at <= workspaces@.len(),
            crate::search::first(workspaces@, is_focused(), 0) == crate::search::first(
                workspaces@,
                is_focused(),
                at as int,
            ),
        decreases workspaces@.len() - at,
    {
        at += 1;
    }
    if new_workspace || workspaces.len() == 0 {
        return Landing::Create(
            PeerWorkspaceCreateParams {
                name: name.to_owned(),
                cwd: None,
                label: None,
                focus: true,
            },
        );
    }
    let chosen: usize = if at < workspaces.len() {
        at
    } else {
        0
    };
    Landing::Open(
        PeerWorkspaceOpenParams {
            target: workspaces[chosen].workspace_id.clone(),
            name: Some(name.to_owned()),
            label: None,
            focus: true,
            takeover: false,
        },
    )
}

/// What a connect does next.
#[derive(Debug, PartialEq, Eq)]
pub enum ConnectStep {
    /// Settle what an ssh peer needs a human for; the outcome goes to
    /// [`connect_prepared`].
    Prepare,
    /// Ask for the peers; they go to [`connect_listed`].
    List,
    /// Add the peer; the answer goes to [`connect_added`].
    Add(PeerAddParams),
    /// Ask for the peers, after a while when they were asked for before; they go
    /// to [`connect_waited`].
    Wait,
    /// Land, which ends it.
    Land(Landing),
    /// This is shown, and it has failed with [`EXIT_FAILED`].
    Failed(String),
}

/// The first step of a connect.
pub fn connect_begin(command: &ConnectCommand) -> (r: ConnectStep)
    ensures
        r == if command.skip_ssh_check {
            ConnectStep::List
        } else {
            ConnectStep::Prepare
        },
{
    if command.skip_ssh_check {
        ConnectStep::List
    } else {
        ConnectStep::Prepare
    }
}

/// The step after ssh was prepared.
pub fn connect_prepared(prepared: Result<(), String>) -> (r: ConnectStep)
    ensures
        r == match prepared {
            Ok(_) => ConnectStep::List,
            Err(error) => ConnectStep::Failed(error),
        },
{
    match prepared {
        Ok(_) => ConnectStep::List,
        Err(error) => ConnectStep::Failed(error),
    }
}

/// The step after the peers were asked for. A peer that is configured already is
/// not added again: connecting is what someone does again after a restart.
pub fn connect_listed(command: &ConnectCommand, peers: &Vec<PeerInfo>) -> (r: ConnectStep)
    ensures
        if crate::search::any(peers@, is_named(command.name@)) {
            r == ConnectStep::Wait
        } else {
            r == ConnectStep::Add(
                PeerAddParams {
                    name: command.name,
                    target: PeerTargetSpec::Ssh {
                        destination: command.destination,
                        session: command.session,
                    },
                },
            )
        },
{
    if peer_is_configured(peers, command.name.as_str()) {
        return ConnectStep::Wait;
    }
    ConnectStep::Add(
        PeerAddParams {
            name: command.name.clone(),
            target: PeerTargetSpec::Ssh {
                destination: command.destination.clone(),
                session: opt_clone(&command.session),
            },
        },
    )
}

/// The step after the peer was added, or refused.
pub fn connect_added(answer: &serde_json::Value) -> (r: ConnectStep)
    ensures
        match crate::json::json(*answer).member("error"@) {
            None => r == ConnectStep::Wait,
            Some(error) => r is Failed && r->Failed_0@ == crate::json::encoded(error),
        },
{
    match get(answer, "error") {
        None => ConnectStep::Wait,
        Some(error) => match encode(error) {
            Ok(text) => ConnectStep::Failed(text),
            Err(text) => ConnectStep::Failed(text),
        },
    }
}

/// The step after a look at the peer that is waited for.
pub fn connect_waited(command: &ConnectCommand, peers: &Vec<PeerInfo>, timed_out: bool) -> (r:
    ConnectStep)
    ensures
        match wait_failure(peers@, command.name@, timed_out, PEER_CONNECT_TIMEOUT_SECS) {
            Some(reason) => r is Failed && r->Failed_0@ == reason,
            None => {
                let peer = peers@[crate::search::first(peers@, is_named(command.name@), 0)];
                if peer.connection == PeerConnectionKind::Connected {
                    r is Land && lands(peer, command.name@, command.new_workspace, r->Land_0)
                } else {
                    r == ConnectStep::Wait
                }
            },
        },
{
    let name = command.name.as_str();
    proof {
        crate::search::lemma_first(peers@, is_named(name@), 0);
        assert(peers.len() == peers@.len());
    }
    match wait_for_connected_peer(peers, name, timed_out, PEER_CONNECT_TIMEOUT_SECS) {
        Awaited::Connected(at) => ConnectStep::Land(
            connect_landing(&peers[at], name, command.new_workspace),
        ),
        Awaited::Failed(reason) => ConnectStep::Failed(reason),
        Awaited::NotYet => ConnectStep::Wait,
    }
}

/// A connect ends at once when its time is over, and never waits for a peer that
/// is connected or that nothing retries.
pub proof fn law_waiting_ends(peers: Seq<PeerInfo>, name: Seq<char>, timeout_secs: u64)
    ensures
        match crate::search::find(peers, is_named(name)) {
            None => wait_failure(peers, name, false, timeout_secs) is Some,
            Some(peer) => {
                &&& peer.connection == PeerConnectionKind::Connected <==> wait_failure(
                    peers,
                    name,
                    true,
                    timeout_secs,
                ) is None
                &&& peer.connection == PeerConnectionKind::Error ==> wait_failure(
                    peers,
                    name,
                    false,
                    timeout_secs,
                ) is Some
            },
        },
{
}

/// What the arguments of `peer setup-ssh` come to: whether every question is
/// answered with yes.
pub open spec fn yes_options(yes: bool, args: Seq<Seq<char>>) -> Result<bool, Seq<char>>
    decreases args.len(),
{
    if args.len() == 0 {
        Ok(yes)
    } else if args[0] == "--yes"@ || args[0] == "-y"@ {
        yes_options(true, args.skip(1))
    } else {
        Err(unknown(args[0]))
    }
}

/// What came of `peer setup-ssh`.
#[derive(Debug, PartialEq, Eq)]
pub enum SetupReport {
    /// This is said, and it has succeeded.
    Ready(String),
    /// This is shown, and it has failed.
    Failed(String),
}

impl SetupReport {
    pub fn exit_code(&self) -> (r: i32)
        ensures
            r == if self is Ready {
                0
            } else {
                EXIT_FAILED
            },
    {
        match self {
            SetupReport::Ready(_) => 0,
            SetupReport::Failed(_) => EXIT_FAILED,
        }
    }
}

/// What is said once ssh was prepared.
pub fn setup_prepared(destination: &str, prepared: Result<(), String>) -> (r: SetupReport)
    ensures
        match prepared {
            Ok(_) => r is Ready && (r->Ready_0)@ == destination@
                + " is ready to be added as a peer"@,
            Err(error) => r == SetupReport::Failed(error),
        },
{
    match prepared {
        Ok(_) => SetupReport::Ready(cat2(destination, " is ready to be added as a peer")),
        Err(error) => SetupReport::Failed(error),
    }
}

/// Reads the arguments of `peer setup-ssh`: the destination, and whether every
/// question is answered with yes.
pub fn peer_setup_ssh(args: &[String]) -> (r: Result<(String, bool), String>)
    ensures
        match leading(texts(args@)) {
            None => r is Err && r->Err_0@ == SETUP_USAGE@,
            Some(destination) => match yes_options(false, texts(args@).skip(1)) {
                Err(error) => r is Err && r->Err_0@ == error,
                Ok(yes) => r is Ok && (r->Ok_0).0@ == destination && (r->Ok_0).1 == yes,
            },
        },
{
    let destination = match leading_arg(args) {
        Some(destination) => destination.clone(),
        None => {
            return Err(SETUP_USAGE.to_owned());
        },
    };
    let ghost all = texts(args@);
    let mut yes = false;
    let mut i: usize = 1;
    while i < args.len()
        invariant
            all == texts(args@),
            1 <= i <= args@.len(),
            leading(all) is Some,
            yes_options(false, all.skip(1)) == yes_options(yes, all.skip(i as int)),
        decreases args@.len() - i,
    {
        let ghost rest = all.skip(i as int);
        assert(rest[0] == all[i as int]);
        assert(rest.skip(1) =~= all.skip(i + 1));
        let arg = args[i].as_str();
        if str_eq(arg, "--yes") || str_eq(arg, "-y") {
            yes = true;
        } else {
            return Err(cat2("unknown option: ", arg));
        }
        i += 1;
    }
    Ok((destination, yes))
}

/// Whether the only argument asks for the raw answer; anything else is a mistake,
/// for which the exit code is 2 and `usage` is printed.
pub fn parse_json_flag(args: &[String]) -> (r: Result<bool, i32>)
    ensures
        r == if args@.len() == 0 {
            Ok::<bool, i32>(false)
        } else if args@.len() == 1 && args@[0]@ == "--json"@ {
            Ok::<bool, i32>(true)
        } else {
            Err::<bool, i32>(2)
        },
{
    if args.len() == 0 {
        Ok(false)
    } else if args.len() == 1 && str_eq(args[0].as_str(), "--json") {
        Ok(true)
    } else {
        Err(2)
    }
}

/// Reads the arguments of `peer remove`: the name, and whether the raw answer is
/// asked for.
pub fn peer_remove(args: &[String]) -> (r: Result<(String, bool), String>)
    ensures
        match leading(texts(args@)) {
            None => r is Err && r->Err_0@ == REMOVE_USAGE@,
            Some(name) => if args@.len() == 1 || (args@.len() == 2 && args@[1]@ == "--json"@) {
                r is Ok && (r->Ok_0).0@ == name && (r->Ok_0).1 == (args@.len() == 2)
            } else {
                r is Err && r->Err_0@ == REMOVE_USAGE@
            },
        },
{
    let name = match leading_arg(args) {
        Some(name) => name.clone(),
        None => {
            return Err(REMOVE_USAGE.to_owned());
        },
    };
    let rest = vstd::slice::slice_subrange(args, 1, args.len());
    match parse_json_flag(rest) {
        Ok(json) => Ok((name, json)),
        Err(_) => Err(REMOVE_USAGE.to_owned()),
    }
}

/// The options of `peer open`.
pub struct OpenOptionsView {
    pub name: Option<Seq<char>>,
    pub label: Option<Seq<char>>,
    pub focus: bool,
    pub takeover: bool,
}

/// What these options come to, on top of those read so far.
pub open spec fn open_options(o: OpenOptionsView, args: Seq<Seq<char>>) -> Result<
    OpenOptionsView,
    Seq<char>,
>
    decreases args.len(),
{
    if args.len() == 0 {
        Ok(o)
    } else if args[0] == "--peer"@ {
        if args.len() < 2 {
            Err(missing(args[0]))
        } else {
            open_options(OpenOptionsView { name: Some(args[1]), ..o }, args.skip(2))
        }
    } else if args[0] == "--label"@ {
        if args.len() < 2 {
            Err(missing(args[0]))
        } else {
            open_options(OpenOptionsView { label: Some(args[1]), ..o }, args.skip(2))
        }
    } else if args[0] == "--focus"@ {
        open_options(OpenOptionsView { focus: true, ..o }, args.skip(1))
    } else if args[0] == "--no-focus"@ {
        open_options(OpenOptionsView { focus: false, ..o }, args.skip(1))
    } else if args[0] == "--takeover"@ {
        open_options(OpenOptionsView { takeover: true, ..o }, args.skip(1))
    } else {
        Err(unknown(args[0]))
    }
}

/// What a request to open says besides its target.
pub open spec fn asked(params: PeerWorkspaceOpenParams) -> OpenOptionsView {
    OpenOptionsView {
        name: crate::text::opt_view(params.name),
        label: crate::text::opt_view(params.label),
        focus: params.focus,
        takeover: params.takeover,
    }
}

/// What the arguments of `peer open` come to.
pub open spec fn reads_open(args: Seq<Seq<char>>, r: Result<PeerWorkspaceOpenParams, String>) -> bool {
    match leading(args) {
        None => r is Err && r->Err_0@ == OPEN_USAGE@,
        Some(target) => match open_options(
            (OpenOptionsView { name: None, label: None, focus: false, takeover: false }),
            args.skip(1),
        ) {
            Err(error) => r is Err && r->Err_0@ == error,
            Ok(o) => r is Ok && r->Ok_0.target@ == target && asked(r->Ok_0) == o,
        },
    }
}

/// Reads the arguments of `peer open`.
pub fn peer_open(args: &[String]) -> (r: Result<PeerWorkspaceOpenParams, String>)
    ensures
        reads_open(texts(args@), r),
{
    let target = match leading_arg(args) {
        Some(target) => target.clone(),
        None => {
            return Err(OPEN_USAGE.to_owned());
        },
    };
    let ghost all = texts(args@);
    let ghost none = OpenOptionsView { name: None, label: None, focus: false, takeover: false };
    let mut o = PeerWorkspaceOpenParams {
        target,
        name: None,
        label: None,
        focus: false,
        takeover: false,
    };
    let mut i: usize = 1;
    while i < args.len()
        invariant
            all == texts(args@),
            none == (OpenOptionsView { name: None, label: None, focus: false, takeover: false }),
            1 <= i <= args@.len(),
            leading(all) == Some(o.target@),
            open_options(none, all.skip(1)) == open_options(asked(o), all.skip(i as int)),
        decreases args@.len() - i,
    {
        let ghost rest = all.skip(i as int);
        assert(rest[0] == all[i as int]);
        assert(rest.skip(1) =~= all.skip(i + 1));
        assert(rest.len() >= 2 ==> rest.skip(2) =~= all.skip(i + 2));
        let arg = args[i].as_str();
        if str_eq(arg, "--peer") {
            match value_of(args, i) {
                Ok(value) => {
                    o.name = Some(value);
                },
                Err(error) => {
                    return Err(error);
                },
            }
            i += 2;
        } else if str_eq(arg, "--label") {
            match value_of(args, i) {
                Ok(value) => {
                    o.label = Some(value);
                },
                Err(error) => {
                    return Err(error);
                },
            }
            i += 2;
        } else if str_eq(arg, "--focus") {
            o.focus = true;
            i += 1;
        } else if str_eq(arg, "--no-focus") {
            o.focus = false;
            i += 1;
        } else if str_eq(arg, "--takeover") {
            o.takeover = true;
            i += 1;
        } else {
            return Err(cat2("unknown option: ", arg));
        }
    }
    Ok(o)
}

/// What a peer command is to do.
#[derive(Debug, PartialEq, Eq)]
pub enum PeerCommand {
    List { json: bool },
    Add(AddCommand),
    Remove { name: String, json: bool },
    Open(PeerWorkspaceOpenParams),
    Connect(ConnectCommand),
    SetupSsh { destination: String, assume_yes: bool },
    Help,
}

/// Why a peer command does nothing.
#[derive(Debug, PartialEq, Eq)]
pub enum Misuse {
    /// No command, or none there is: the help is printed.
    NoSuchCommand,
    /// This is printed.
    Message(String),
}

impl Misuse {
    /// The exit code of a command that was not understood.
    pub fn exit_code(&self) -> (r: i32)
        ensures
            r == EXIT_MISUSED,
    {
        EXIT_MISUSED
    }
}

/// What the arguments of a peer command come to.
pub open spec fn reads_peer_command(args: Seq<String>, r: Result<PeerCommand, Misuse>) -> bool {
    if args.len() == 0 {
        r is Err && r->Err_0 is NoSuchCommand
    } else {
        let rest = args.skip(1);
        let said = args[0]@;
        if said == "list"@ {
            if rest.len() == 0 || (rest.len() == 1 && rest[0]@ == "--json"@) {
                r == Ok::<PeerCommand, Misuse>(PeerCommand::List { json: rest.len() == 1 })
            } else {
                r is Err && r->Err_0 is Message && (r->Err_0)->Message_0@ == LIST_USAGE@
            }
        } else if said == "add"@ {
            match r {
                Ok(command) => command is Add && reads_add(
                    texts(rest),
                    Ok::<AddCommand, String>(command->Add_0),
                ),
                Err(misuse) => misuse is Message && reads_add(
                    texts(rest),
                    Err::<AddCommand, String>(misuse->Message_0),
                ),
            }
        } else if said == "remove"@ {
            match leading(texts(rest)) {
                Some(name) if rest.len() == 1 || (rest.len() == 2 && rest[1]@ == "--json"@) => {
                    &&& r is Ok
                    &&& r->Ok_0 is Remove
                    &&& (r->Ok_0)->Remove_name@ == name
                    &&& (r->Ok_0)->Remove_json == (rest.len() == 2)
                },
                _ => r is Err && r->Err_0 is Message && (r->Err_0)->Message_0@ == REMOVE_USAGE@,
            }
        } else if said == "open"@ {
            match r {
                Ok(command) => command is Open && reads_open(
                    texts(rest),
                    Ok::<PeerWorkspaceOpenParams, String>(command->Open_0),
                ),
                Err(misuse) => misuse is Message && reads_open(
                    texts(rest),
                    Err::<PeerWorkspaceOpenParams, String>(misuse->Message_0),
                ),
            }
        } else if said == "connect"@ {
            match r {
                Ok(command) => command is Connect && reads_connect(
                    texts(rest),
                    Ok::<ConnectCommand, String>(command->Connect_0),
                ),
                Err(misuse) => misuse is Message && reads_connect(
                    texts(rest),
                    Err::<ConnectCommand, String>(misuse->Message_0),
                ),
            }
        } else if said == "setup-ssh"@ {
            match leading(texts(rest)) {
                None => r is Err && r->Err_0 is Message && (r->Err_0)->Message_0@ == SETUP_USAGE@,
                Some(destination) => match yes_options(false, texts(rest).skip(1)) {
                    Err(error) => r is Err && r->Err_0 is Message && (r->Err_0)->Message_0@
                        == error,
                    Ok(yes) => {
                        &&& r is Ok
                        &&& r->Ok_0 is SetupSsh
                        &&& (r->Ok_0)->SetupSsh_destination@ == destination
                        &&& (r->Ok_0)->SetupSsh_assume_yes == yes
                    },
                },
            }
        } else if said == "help"@ || said == "--help"@ || said == "-h"@ {
            r == Ok::<PeerCommand, Misuse>(PeerCommand::Help)
        } else {
            r is Err && r->Err_0 is NoSuchCommand
        }
    }
}

/// Reads the arguments of a peer command.
pub fn run_peer_command(args: &[String]) -> (r: Result<PeerCommand, Misuse>)
    ensures
        reads_peer_command(args@, r),
{
    if args.len() == 0 {
        return Err(Misuse::NoSuchCommand);
    }
    let rest = vstd::slice::slice_subrange(args, 1, args.len());
    assert(rest@ =~= args@.skip(1));
    let said = args[0].as_str();
    if str_eq(said, "list") {
        match parse_json_flag(rest) {
            Ok(json) => Ok(PeerCommand::List { json }),
            Err(_) => Err(Misuse::Message(LIST_USAGE.to_owned())),
        }
    } else if str_eq(said, "add") {
        match peer_add(rest) {
            Ok(command) => Ok(PeerCommand::Add(command)),
            Err(error) => Err(Misuse::Message(error)),
        }
    } else if str_eq(said, "remove") {
        match peer_remove(rest) {
            Ok((name, json)) => Ok(PeerCommand::Remove { name, json }),
            Err(error) => Err(Misuse::Message(error)),
        }
    } else if str_eq(said, "open") {
        match peer_open(rest) {
            Ok(params) => Ok(PeerCommand::Open(params)),
            Err(error) => Err(Misuse::Message(error)),
        }
    } else if str_eq(said, "connect") {
        match peer_connect(rest) {
            Ok(command) => Ok(PeerCommand::Connect(command)),
            Err(error) => Err(Misuse::Message(error)),
        }
    } else if str_eq(said, "setup-ssh") {
        match peer_setup_ssh(rest) {
            Ok((destination, assume_yes)) => Ok(PeerCommand::SetupSsh { destination, assume_yes }),
            Err(error) => Err(Misuse::Message(error)),
        }
    } else if str_eq(said, "help") || str_eq(said, "--help") || str_eq(said, "-h") {
        Ok(PeerCommand::Help)
    } else {
        Err(Misuse::NoSuchCommand)
    }
}

/// How a peer's connection reads.
pub open spec fn connection_text(peer: PeerInfo) -> Seq<char> {
    match peer.attempt {
        Some(attempt) => peer.connection.text() + " #"@ + crate::text::decimal(attempt as nat),
        None => peer.connection.text(),
    }
}

/// How a peer's connection reads. The attempt tells a peer that is retried from
/// one that is not.
pub fn connection_summary(peer: &PeerInfo) -> (r: String)
    ensures
        r@ == connection_text(*peer),
{
    match peer.attempt {
        Some(attempt) => cat3(peer.connection.label(), " #", to_decimal(attempt as u64).as_str()),
        None => peer.connection.label().to_owned(),
    }
}

/// How a target reads.
pub open spec fn target_text(target: crate::app::peers::TargetView) -> Seq<char> {
    match target {
        crate::app::peers::TargetView::SocketPath(path) => path,
        crate::app::peers::TargetView::Ssh { destination, session } => match session {
            Some(session) => "ssh "@ + destination + " (session "@ + session + ")"@,
            None => "ssh "@ + destination,
        },
    }
}

/// How a target reads.
pub fn target_summary(target: &PeerTargetSpec) -> (r: String)
    ensures
        r@ == target_text(target@),
{
    match target {
        PeerTargetSpec::SocketPath { path } => path.clone(),
        PeerTargetSpec::Ssh { destination, session } => match session {
            Some(session) => cat5(
                "ssh ",
                destination.as_str(),
                " (session ",
                session.as_str(),
                ")",
            ),
            None => cat2("ssh ", destination.as_str()),
        },
    }
}

/// Spaces.
pub open spec fn spaces(n: int) -> Seq<char> {
    Seq::new(
        if n > 0 {
            n as nat
        } else {
            0
        },
        |i: int| ' ',
    )
}

/// A text filled up with spaces to this width.
pub open spec fn padded(s: Seq<char>, width: int) -> Seq<char> {
    s + spaces(width - s.len())
}

fn pad(s: &str, width: usize) -> (r: String)
    ensures
        r@ == padded(s@, width as int),
{
    let mut out = s.to_owned();
    let mut n: usize = s.unicode_len();
    assert(s@ + spaces(0) =~= s@);
    while n < width
        invariant
            s@.len() <= n,
            n <= width || n == s@.len(),
            out@ == s@ + spaces(n - s@.len()),
        decreases width - n,
    {
        out.push(' ');
        n += 1;
        assert(out@ =~= s@ + spaces(n - s@.len()));
    }
    assert(out@ =~= padded(s@, width as int));
    out
}

/// One line of the table.
pub open spec fn row(a: Seq<char>, b: Seq<char>, c: Seq<char>, d: Seq<char>) -> Seq<char> {
    padded(a, 20) + " "@ + padded(b, 16) + " "@ + padded(c, 10) + " "@ + d
}

fn table_row(a: &str, b: &str, c: &str, d: &str) -> (r: String)
    ensures
        r@ == row(a@, b@, c@, d@),
{
    let mut out = pad(a, 20);
    out.append(" ");
    out.append(pad(b, 16).as_str());
    out.append(" ");
    out.append(pad(c, 10).as_str());
    out.append(" ");
    out.append(d);
    out
}

/// The lines of one peer.
pub open spec fn peer_rows(peer: PeerInfo) -> Seq<Seq<char>> {
    let line = row(
        peer.name@,
        connection_text(peer),
        crate::text::decimal(peer.workspaces@.len()),
        target_text(peer.target@),
    );
    match peer.error {
        Some(error) => seq![line, padded(Seq::empty(), 20) + " "@ + error@],
        None => seq![line],
    }
}

/// The lines of these peers.
pub open spec fn all_rows(peers: Seq<PeerInfo>) -> Seq<Seq<char>>
    decreases peers.len(),
{
    if peers.len() == 0 {
        seq![row("name"@, "connection"@, "workspaces"@, "target"@)]
    } else {
        all_rows(peers.drop_last()) + peer_rows(peers.last())
    }
}

/// The peers as a table.
pub fn peer_table(peers: &Vec<PeerInfo>) -> (r: Vec<String>)
    ensures
        texts(r@) == all_rows(peers@),
{
    let mut lines: Vec<String> = Vec::new();
    lines.push(table_row("name", "connection", "workspaces", "target"));
    let mut i: usize = 0;
    assert(peers@.take(0) =~= Seq::empty());
    assert(texts(lines@) =~= all_rows(peers@.take(0)));
    while i < peers.len()
        invariant
            i <= peers@.len(),
            texts(lines@) == all_rows(peers@.take(i as int)),
        decreases peers@.len() - i,
    {
        let peer = &peers[i];
        let ghost before = lines@;
        assert(peers@.take(i + 1).drop_last() =~= peers@.take(i as int));
        lines.push(
            table_row(
                peer.name.as_str(),
                connection_summary(peer).as_str(),
                to_decimal(peer.workspaces.len() as u64).as_str(),
                target_summary(&peer.target).as_str(),
            ),
        );
        if let Some(error) = &peer.error {
            let empty = "";
            proof {
                reveal_strlit("");
                assert(empty@ =~= Seq::empty());
            }
            let mut line = pad(empty, 20);
            line.append(" ");
            line.append(error.as_str());
            lines.push(line);
        }
        assert(texts(lines@) =~= texts(before) + peer_rows(*peer));
        i += 1;
    }
    assert(peers@.take(i as int) =~= peers@);
    lines
}

/// How an answer about peers is shown.
#[derive(Debug, PartialEq, Eq)]
pub enum PeerReport {
    /// The raw answer.
    Raw,
    /// The answer is an error: it is shown whole, and the exit code is 1.
    Error(String),
    /// The lines of a table.
    Table(Vec<String>),
}

impl PeerReport {
    /// The exit code of a command whose answer is shown like this: it has failed
    /// when the answer is an error.
    pub fn exit_code(&self, response: &serde_json::Value) -> (r: i32)
        ensures
            r == match self {
                PeerReport::Raw => if crate::json::json(*response).member("error"@) is Some {
                    EXIT_FAILED
                } else {
                    0
                },
                PeerReport::Error(_) => EXIT_FAILED,
                PeerReport::Table(_) => 0,
            },
    {
        match self {
            PeerReport::Raw => if get(response, "error").is_some() {
                EXIT_FAILED
            } else {
                0
            },
            PeerReport::Error(_) => EXIT_FAILED,
            PeerReport::Table(_) => 0,
        }
    }
}

/// How an answer about peers is shown. Every change answers with all the peers, so
/// all of them report the same way. `peers` is what could be read of the answer.
pub fn report_peers(response: &serde_json::Value, peers: Option<Vec<PeerInfo>>, json: bool) -> (r:
    PeerReport)
    ensures
        if json {
            r is Raw
        } else if crate::json::json(*response).member("error"@) is Some {
            r is Error && (r->Error_0)@ == crate::json::encoded(crate::json::json(*response))
        } else {
            match peers {
                Some(peers) => r is Table && texts((r->Table_0)@) == all_rows(peers@),
                None => r is Raw,
            }
        },
{
    if json {
        return PeerReport::Raw;
    }
    if get(response, "error").is_some() {
        return match encode(response) {
            Ok(text) => PeerReport::Error(text),
            Err(text) => PeerReport::Error(text),
        };
    }
    match peers {
        Some(peers) => PeerReport::Table(peer_table(&peers)),
        None => PeerReport::Raw,
    }
}

/// A peer that is named after its destination has a name.
pub proof fn law_default_names_are_never_empty(destination: Seq<char>)
    requires
        destination.len() > 0,
    ensures
        default_name(destination).len() > 0,
{
}

} // verus!
