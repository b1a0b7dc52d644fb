//! What holds of the command line as a whole.

use vstd::prelude::*;

use crate::api::schema::browser::{BrowserNavigateParams, BrowserOpenParams, BrowserPaneTarget};
use crate::api::schema::peers::{PeerInfo, PeerTargetSpec, PeerWorkspaceOpenParams};
use crate::cli::browser::BrowserCli;
use crate::cli::peer::{
    AddCommand, AddOptionsView, AddStep, Awaited, ConnectCommand, ConnectOptionsView, ConnectStep,
    Landing, Misuse, PeerCommand, PeerReport, SetupReport,
};
use crate::json::json;

verus! {

/// The commands have names of their own.
proof fn lemma_commands_differ()
    ensures
        "list"@ != "add"@ && "list"@ != "remove"@ && "list"@ != "open"@ && "list"@ != "connect"@,
        "list"@ != "setup-ssh"@ && "list"@ != "help"@ && "list"@ != "--help"@ && "list"@ != "-h"@,
        "add"@ != "remove"@ && "add"@ != "open"@ && "add"@ != "connect"@ && "add"@ != "setup-ssh"@,
        "add"@ != "help"@ && "add"@ != "--help"@ && "add"@ != "-h"@,
        "remove"@ != "open"@ && "remove"@ != "connect"@ && "remove"@ != "setup-ssh"@ && "remove"@
            != "help"@,
        "remove"@ != "--help"@ && "remove"@ != "-h"@,
        "open"@ != "connect"@ && "open"@ != "setup-ssh"@ && "open"@ != "help"@ && "open"@
            != "--help"@ && "open"@ != "-h"@,
        "connect"@ != "setup-ssh"@ && "connect"@ != "help"@ && "connect"@ != "--help"@ && "connect"@
            != "-h"@,
        "setup-ssh"@ != "help"@ && "setup-ssh"@ != "--help"@ && "setup-ssh"@ != "-h"@,
{
    reveal_strlit("list");
    reveal_strlit("add");
    reveal_strlit("remove");
    reveal_strlit("open");
    reveal_strlit("connect");
    reveal_strlit("setup-ssh");
    reveal_strlit("help");
    reveal_strlit("--help");
    reveal_strlit("-h");
    assert("list"@.len() == 4 && "add"@.len() == 3 && "remove"@.len() == 6 && "open"@.len() == 4);
    assert("connect"@.len() == 7 && "setup-ssh"@.len() == 9 && "help"@.len() == 4 && "-h"@.len()
        == 2 && "--help"@.len() == 6);
    assert("list"@[0] == 'l' && "open"@[0] == 'o' && "help"@[0] == 'h');
    assert("remove"@[0] == 'r' && "--help"@[0] == '-');
}

/// Each word is the command it says, and any other word is none.
pub proof fn law_commands_are_known_by_their_word(args: &[String], r: Result<PeerCommand, Misuse>)
    requires
        call_ensures(crate::cli::peer::run_peer_command, (args,), r),
    ensures
        args@.len() == 0 ==> r is Err && r->Err_0 is NoSuchCommand,
        args@.len() > 0 && args@[0]@ == "list"@ && r is Ok ==> r->Ok_0 is List,
        args@.len() > 0 && args@[0]@ == "add"@ && r is Ok ==> r->Ok_0 is Add,
        args@.len() > 0 && args@[0]@ == "remove"@ && r is Ok ==> r->Ok_0 is Remove,
        args@.len() > 0 && args@[0]@ == "open"@ && r is Ok ==> r->Ok_0 is Open,
        args@.len() > 0 && args@[0]@ == "connect"@ && r is Ok ==> r->Ok_0 is Connect,
        args@.len() > 0 && args@[0]@ == "setup-ssh"@ && r is Ok ==> r->Ok_0 is SetupSsh,
        args@.len() > 0 && (args@[0]@ == "help"@ || args@[0]@ == "--help"@ || args@[0]@ == "-h"@)
            ==> r is Ok && r->Ok_0 is Help,
        args@.len() > 0 && args@[0]@ != "list"@ && args@[0]@ != "add"@ && args@[0]@ != "remove"@
            && args@[0]@ != "open"@ && args@[0]@ != "connect"@ && args@[0]@ != "setup-ssh"@
            && args@[0]@ != "help"@ && args@[0]@ != "--help"@ && args@[0]@ != "-h"@ ==> r is Err
            && r->Err_0 is NoSuchCommand,
        args@.len() == 1 && args@[0]@ == "list"@ ==> r == Ok::<PeerCommand, Misuse>(
            PeerCommand::List { json: false },
        ),
        args@.len() == 2 && args@[0]@ == "list"@ && args@[1]@ == "--json"@ ==> r == Ok::<
            PeerCommand,
            Misuse,
        >(PeerCommand::List { json: true }),
        args@.len() == 2 && args@[0]@ == "list"@ && args@[1]@ != "--json"@ ==> r is Err
            && r->Err_0 is Message && (r->Err_0)->Message_0@ == "usage: herdr peer list [--json]"@,
{
    lemma_commands_differ();
    if args@.len() > 1 {
        assert(args@.skip(1)[0] == args@[1]);
    }
}

/// The word stands for itself, and not for an option.
pub open spec fn is_word(arg: Seq<char>) -> bool {
    arg.len() == 0 || arg[0] != '-'
}

proof fn lemma_leading(args: Seq<String>)
    ensures
        args.len() > 0 && is_word(args[0]@) ==> crate::cli::peer::leading(
            crate::cli::peer::texts(args),
        ) == Some(args[0]@),
        args.len() == 0 || !is_word(args[0]@) ==> crate::cli::peer::leading(
            crate::cli::peer::texts(args),
        ) is None,
{
    reveal_strlit("-");
    let words = crate::cli::peer::texts(args);
    if args.len() > 0 {
        assert(words[0] == args[0]@);
        assert("-"@.len() == 1 && "-"@[0] == '-');
        if args[0]@.len() > 0 {
            assert(args[0]@.take(1)[0] == args[0]@[0]);
            if args[0]@[0] == '-' {
                assert(args[0]@.take(1) =~= "-"@);
            }
        }
    }
}

/// A peer is removed by its name alone; anything but the one flag is misuse.
pub proof fn law_a_peer_is_removed_by_name(args: &[String], r: Result<(String, bool), String>)
    requires
        call_ensures(crate::cli::peer::peer_remove, (args,), r),
    ensures
        args@.len() == 1 && is_word(args@[0]@) ==> r is Ok && (r->Ok_0).0@ == args@[0]@
            && !(r->Ok_0).1,
        args@.len() == 2 && is_word(args@[0]@) && args@[1]@ == "--json"@ ==> r is Ok && (
        r->Ok_0).0@ == args@[0]@ && (r->Ok_0).1,
        args@.len() == 0 || args@.len() > 2 || !is_word(args@[0]@) ==> r is Err && r->Err_0@
            == "usage: herdr peer remove <name> [--json]"@,
{
    lemma_leading(args@);
}

/// Only the flag for raw output is read there.
pub proof fn law_the_json_flag_is_read(args: &[String], r: Result<bool, i32>)
    requires
        call_ensures(crate::cli::peer::parse_json_flag, (args,), r),
    ensures
        args@.len() == 0 ==> r == Ok::<bool, i32>(false),
        args@.len() == 1 && args@[0]@ == "--json"@ ==> r == Ok::<bool, i32>(true),
        args@.len() > 1 || (args@.len() == 1 && args@[0]@ != "--json"@) ==> r == Err::<bool, i32>(
            2,
        ),
{
}

/// A peer's target is the one route that was given.
pub proof fn law_a_target_has_one_route(
    socket: Option<String>,
    ssh: Option<String>,
    session: Option<String>,
    r: Result<PeerTargetSpec, String>,
)
    requires
        call_ensures(crate::cli::peer::peer_target_from_args, (socket, ssh, session), r),
    ensures
        socket is Some && ssh is Some ==> r is Err && r->Err_0@
            == "use either --socket or --ssh, not both"@,
        socket is None && ssh is None ==> r is Err && r->Err_0@
            == "herdr peer add needs --socket PATH or --ssh DESTINATION"@,
        socket is Some && ssh is None && session is Some ==> r is Err && r->Err_0@
            == "--peer-session applies to --ssh peers only"@,
        socket is Some && ssh is None && session is None ==> r is Ok && r->Ok_0@
            == crate::app::peers::TargetView::SocketPath(socket->0@),
        socket is None && ssh is Some ==> r is Ok && r->Ok_0@ == (
        crate::app::peers::TargetView::Ssh {
            destination: ssh->0@,
            session: crate::text::opt_view(session),
        }),
{
}

/// What is said on top of what was said before.
pub open spec fn said_too(a: AddOptionsView, b: AddOptionsView) -> AddOptionsView {
    AddOptionsView {
        socket: if b.socket is Some {
            b.socket
        } else {
            a.socket
        },
        ssh: if b.ssh is Some {
            b.ssh
        } else {
            a.ssh
        },
        session: if b.session is Some {
            b.session
        } else {
            a.session
        },
        json: a.json || b.json,
        assume_yes: a.assume_yes || b.assume_yes,
        skip_ssh_check: a.skip_ssh_check || b.skip_ssh_check,
    }
}

proof fn lemma_add_said(o: AddOptionsView, args: Seq<Seq<char>>)
    ensures
        ({
            let none = crate::cli::peer::no_add_options();
            match crate::cli::peer::add_options(none, args) {
                Ok(q) => crate::cli::peer::add_options(o, args) == Ok::<
                    AddOptionsView,
                    Seq<char>,
                >(said_too(o, q)),
                Err(e) => crate::cli::peer::add_options(o, args) == Err::<
                    AddOptionsView,
                    Seq<char>,
                >(e),
            }
        }),
    decreases args.len(),
{
    let none = crate::cli::peer::no_add_options();
    if args.len() > 0 {
        if args[0] == "--socket"@ || args[0] == "--ssh"@ || args[0] == "--peer-session"@ {
            if args.len() >= 2 {
                let rest = args.skip(2);
                lemma_add_said(AddOptionsView { socket: Some(args[1]), ..o }, rest);
                lemma_add_said(AddOptionsView { socket: Some(args[1]), ..none }, rest);
                lemma_add_said(AddOptionsView { ssh: Some(args[1]), ..o }, rest);
                lemma_add_said(AddOptionsView { ssh: Some(args[1]), ..none }, rest);
                lemma_add_said(AddOptionsView { session: Some(args[1]), ..o }, rest);
                lemma_add_said(AddOptionsView { session: Some(args[1]), ..none }, rest);
            }
        } else {
            let rest = args.skip(1);
            lemma_add_said(AddOptionsView { json: true, ..o }, rest);
            lemma_add_said(AddOptionsView { json: true, ..none }, rest);
            lemma_add_said(AddOptionsView { assume_yes: true, ..o }, rest);
            lemma_add_said(AddOptionsView { assume_yes: true, ..none }, rest);
            lemma_add_said(AddOptionsView { skip_ssh_check: true, ..o }, rest);
            lemma_add_said(AddOptionsView { skip_ssh_check: true, ..none }, rest);
        }
    }
}

proof fn lemma_add_flags_differ()
    ensures
        "--json"@ != "--socket"@ && "--json"@ != "--ssh"@ && "--json"@ != "--peer-session"@,
        "--yes"@ != "--socket"@ && "--yes"@ != "--ssh"@ && "--yes"@ != "--peer-session"@ && "--yes"@
            != "--json"@,
        "--skip-ssh-check"@ != "--socket"@ && "--skip-ssh-check"@ != "--ssh"@ && "--skip-ssh-check"@
            != "--peer-session"@ && "--skip-ssh-check"@ != "--json"@ && "--skip-ssh-check"@
            != "--yes"@ && "--skip-ssh-check"@ != "-y"@,
        "--ssh"@ != "--socket"@,
        "--peer-session"@ != "--socket"@ && "--peer-session"@ != "--ssh"@,
        "--new"@ != "--name"@ && "--new"@ != "--peer-session"@ && "--new"@ != "--yes"@ && "--new"@
            != "-y"@ && "--new"@ != "--skip-ssh-check"@,
        "--yes"@ != "--name"@ && "--skip-ssh-check"@ != "--name"@,
        "--peer-session"@ != "--name"@,
{
    reveal_strlit("--json");
    reveal_strlit("--socket");
    reveal_strlit("--ssh");
    reveal_strlit("--peer-session");
    reveal_strlit("--yes");
    reveal_strlit("-y");
    reveal_strlit("--skip-ssh-check");
    reveal_strlit("--new");
    reveal_strlit("--name");
    assert("--json"@.len() == 6 && "--socket"@.len() == 8 && "--ssh"@.len() == 5
        && "--peer-session"@.len() == 14);
    assert("--yes"@.len() == 5 && "-y"@.len() == 2 && "--skip-ssh-check"@.len() == 16
        && "--new"@.len() == 5 && "--name"@.len() == 6);
    assert("--yes"@[2] == 'y' && "--ssh"@[2] == 's' && "--new"@[2] == 'n');
}

/// An option that is said before the others does what it says, and the others do what
/// they did: a value is taken where no later one is given, and a flag is set.
pub proof fn law_each_add_option_does_its_own(
    a: &[String],
    b: &[String],
    plain: Result<AddCommand, String>,
    more: Result<AddCommand, String>,
)
    requires
        call_ensures(crate::cli::peer::peer_add, (a,), plain),
        call_ensures(crate::cli::peer::peer_add, (b,), more),
        a@.len() >= 1,
        is_word(a@[0]@),
        plain is Ok,
        b@.len() == a@.len() + 1,
        crate::cli::peer::texts(b@) == seq![a@[0]@, b@[1]@] + crate::cli::peer::texts(a@).skip(1),
        b@[1]@ == "--json"@ || b@[1]@ == "--yes"@ || b@[1]@ == "--skip-ssh-check"@,
    ensures
        more is Ok,
        more->Ok_0.name@ == a@[0]@,
        more->Ok_0.target@ == plain->Ok_0.target@,
        more->Ok_0.json == (plain->Ok_0.json || b@[1]@ == "--json"@),
        more->Ok_0.assume_yes == (plain->Ok_0.assume_yes || b@[1]@ == "--yes"@),
        b@[1]@ == "--skip-ssh-check"@ ==> more->Ok_0.prepare is None,
        b@[1]@ != "--skip-ssh-check"@ ==> crate::text::opt_view(more->Ok_0.prepare)
            == crate::text::opt_view(plain->Ok_0.prepare),
{
    lemma_leading(a@);
    lemma_leading(b@);
    lemma_add_flags_differ();
    let x = crate::cli::peer::texts(a@);
    let y = crate::cli::peer::texts(b@);
    let rest = x.skip(1);
    let none = crate::cli::peer::no_add_options();
    assert(y[0] == b@[0]@);
    assert(y.skip(1) =~= seq![b@[1]@] + rest);
    assert(y.skip(1).skip(1) =~= rest);
    assert(y.skip(1)[0] == b@[1]@);
    lemma_add_said(AddOptionsView { json: true, ..none }, rest);
    lemma_add_said(AddOptionsView { assume_yes: true, ..none }, rest);
    lemma_add_said(AddOptionsView { skip_ssh_check: true, ..none }, rest);
}

/// A peer is added under its name by the route that was said: a socket as it is, and
/// an ssh destination, which is made ready first.
pub proof fn law_a_peer_is_added_by_its_route(args: &[String], r: Result<AddCommand, String>)
    requires
        call_ensures(crate::cli::peer::peer_add, (args,), r),
        args@.len() == 3,
        is_word(args@[0]@),
    ensures
        args@[1]@ == "--socket"@ ==> r is Ok && r->Ok_0.name@ == args@[0]@ && r->Ok_0.target@
            == crate::app::peers::TargetView::SocketPath(args@[2]@) && r->Ok_0.prepare is None
            && !r->Ok_0.json && !r->Ok_0.assume_yes,
        args@[1]@ == "--ssh"@ ==> r is Ok && r->Ok_0.name@ == args@[0]@ && r->Ok_0.target@ == (
        crate::app::peers::TargetView::Ssh { destination: args@[2]@, session: None })
            && r->Ok_0.prepare is Some && r->Ok_0.prepare->0@ == args@[2]@ && !r->Ok_0.json
            && !r->Ok_0.assume_yes,
{
    lemma_leading(args@);
    lemma_add_flags_differ();
    let x = crate::cli::peer::texts(args@);
    assert(x[0] == args@[0]@ && x[1] == args@[1]@ && x[2] == args@[2]@);
    let rest = x.skip(1);
    assert(rest[0] == args@[1]@ && rest[1] == args@[2]@);
    assert(rest.skip(2).len() == 0);
    reveal_with_fuel(crate::cli::peer::add_options, 2);
}

/// A destination is made ready before its peer is added, unless that is not wanted; a
/// destination that cannot be made ready is not added.
pub proof fn law_a_destination_is_made_ready_first(
    command: AddCommand,
    first: AddStep,
    prepared: Result<(), String>,
    then_: AddStep,
)
    requires
        call_ensures(crate::cli::peer::add_begin, (&command,), first),
        call_ensures(crate::cli::peer::add_prepared, (prepared,), then_),
    ensures
        command.prepare matches Some(destination) ==> first == AddStep::Prepare(destination),
        command.prepare is None ==> first is Send,
        prepared is Ok ==> then_ is Send,
        prepared matches Err(error) ==> then_ == AddStep::Failed(error),
{
}

/// What is said on top of what was said before.
pub open spec fn connects_too(a: ConnectOptionsView, b: ConnectOptionsView) -> ConnectOptionsView {
    ConnectOptionsView {
        name: if b.name is Some {
            b.name
        } else {
            a.name
        },
        session: if b.session is Some {
            b.session
        } else {
            a.session
        },
        assume_yes: a.assume_yes || b.assume_yes,
        skip_ssh_check: a.skip_ssh_check || b.skip_ssh_check,
        new_workspace: a.new_workspace || b.new_workspace,
    }
}

proof fn lemma_connect_said(o: ConnectOptionsView, args: Seq<Seq<char>>)
    ensures
        ({
            let none = crate::cli::peer::no_connect_options();
            match crate::cli::peer::connect_options(none, args) {
                Ok(q) => crate::cli::peer::connect_options(o, args) == Ok::<
                    ConnectOptionsView,
                    Seq<char>,
                >(connects_too(o, q)),
                Err(e) => crate::cli::peer::connect_options(o, args) == Err::<
                    ConnectOptionsView,
                    Seq<char>,
                >(e),
            }
        }),
    decreases args.len(),
{
    let none = crate::cli::peer::no_connect_options();
    if args.len() > 0 {
        if args[0] == "--name"@ || args[0] == "--peer-session"@ {
            if args.len() >= 2 {
                let rest = args.skip(2);
                lemma_connect_said(ConnectOptionsView { name: Some(args[1]), ..o }, rest);
                lemma_connect_said(ConnectOptionsView { name: Some(args[1]), ..none }, rest);
                lemma_connect_said(ConnectOptionsView { session: Some(args[1]), ..o }, rest);
                lemma_connect_said(ConnectOptionsView { session: Some(args[1]), ..none }, rest);
            }
        } else {
            let rest = args.skip(1);
            lemma_connect_said(ConnectOptionsView { assume_yes: true, ..o }, rest);
            lemma_connect_said(ConnectOptionsView { assume_yes: true, ..none }, rest);
            lemma_connect_said(ConnectOptionsView { skip_ssh_check: true, ..o }, rest);
            lemma_connect_said(ConnectOptionsView { skip_ssh_check: true, ..none }, rest);
            lemma_connect_said(ConnectOptionsView { new_workspace: true, ..o }, rest);
            lemma_connect_said(ConnectOptionsView { new_workspace: true, ..none }, rest);
        }
    }
}

/// A flag that is said first is set, and the rest says what it said.
pub proof fn law_each_connect_option_does_its_own(
    a: &[String],
    b: &[String],
    plain: Result<ConnectCommand, String>,
    more: Result<ConnectCommand, String>,
)
    requires
        call_ensures(crate::cli::peer::peer_connect, (a,), plain),
        call_ensures(crate::cli::peer::peer_connect, (b,), more),
        a@.len() >= 1,
        is_word(a@[0]@),
        plain is Ok,
        b@.len() == a@.len() + 1,
        crate::cli::peer::texts(b@) == seq![a@[0]@, b@[1]@] + crate::cli::peer::texts(a@).skip(1),
        b@[1]@ == "--new"@ || b@[1]@ == "--yes"@ || b@[1]@ == "--skip-ssh-check"@,
    ensures
        more is Ok,
        more->Ok_0.destination@ == plain->Ok_0.destination@,
        more->Ok_0.destination@ == a@[0]@,
        more->Ok_0.name@ == plain->Ok_0.name@,
        crate::text::opt_view(more->Ok_0.session) == crate::text::opt_view(plain->Ok_0.session),
        more->Ok_0.new_workspace == (plain->Ok_0.new_workspace || b@[1]@ == "--new"@),
        more->Ok_0.assume_yes == (plain->Ok_0.assume_yes || b@[1]@ == "--yes"@),
        more->Ok_0.skip_ssh_check == (plain->Ok_0.skip_ssh_check || b@[1]@ == "--skip-ssh-check"@),
{
    lemma_leading(a@);
    lemma_leading(b@);
    lemma_add_flags_differ();
    let x = crate::cli::peer::texts(a@);
    let y = crate::cli::peer::texts(b@);
    let rest = x.skip(1);
    let none = crate::cli::peer::no_connect_options();
    assert(y[0] == b@[0]@);
    assert(y.skip(1) =~= seq![b@[1]@] + rest);
    assert(y.skip(1).skip(1) =~= rest);
    assert(y.skip(1)[0] == b@[1]@);
    lemma_connect_said(ConnectOptionsView { new_workspace: true, ..none }, rest);
    lemma_connect_said(ConnectOptionsView { assume_yes: true, ..none }, rest);
    lemma_connect_said(ConnectOptionsView { skip_ssh_check: true, ..none }, rest);
}

/// A destination alone is connected to under its host's name, with its ssh made
/// ready, and shows a workspace that is there; a name and a session that are given
/// are taken.
pub proof fn law_a_destination_is_connected_to(args: &[String], r: Result<ConnectCommand, String>)
    requires
        call_ensures(crate::cli::peer::peer_connect, (args,), r),
    ensures
        args@.len() == 0 || !is_word(args@[0]@) ==> r is Err,
        args@.len() == 1 && is_word(args@[0]@) ==> r is Ok && r->Ok_0.destination@ == args@[0]@
            && r->Ok_0.name@ == crate::cli::peer::default_name(args@[0]@)
            && r->Ok_0.session is None && !r->Ok_0.assume_yes && !r->Ok_0.skip_ssh_check
            && !r->Ok_0.new_workspace,
        args@.len() == 3 && is_word(args@[0]@) && args@[1]@ == "--name"@ ==> r is Ok
            && r->Ok_0.destination@ == args@[0]@ && r->Ok_0.name@ == args@[2]@
            && r->Ok_0.session is None,
        args@.len() == 3 && is_word(args@[0]@) && args@[1]@ == "--peer-session"@ ==> r is Ok
            && r->Ok_0.destination@ == args@[0]@ && r->Ok_0.session is Some
            && r->Ok_0.session->0@ == args@[2]@ && r->Ok_0.name@ == crate::cli::peer::default_name(
            args@[0]@,
        ),
{
    lemma_leading(args@);
    lemma_add_flags_differ();
    let x = crate::cli::peer::texts(args@);
    if args@.len() == 1 {
        assert(x.skip(1).len() == 0);
    }
    if args@.len() == 3 {
        assert(x[0] == args@[0]@ && x[1] == args@[1]@ && x[2] == args@[2]@);
        let rest = x.skip(1);
        assert(rest[0] == args@[1]@ && rest[1] == args@[2]@);
        assert(rest.skip(2).len() == 0);
        reveal_with_fuel(crate::cli::peer::connect_options, 2);
    }
}

/// The text has none of the marks that set a host apart.
pub open spec fn is_bare_host(host: Seq<char>) -> bool {
    &&& host.len() > 0
    &&& forall|i: int|
        0 <= i < host.len() ==> (#[trigger] host[i]) != '@' && host[i] != ':' && host[i] != '['
            && host[i] != ']'
}

proof fn lemma_after_last(s: Seq<char>, c: char, at: int, to: int)
    requires
        -1 <= at < to <= s.len(),
        at >= 0 ==> s[at] == c,
        forall|j: int| at < j < to ==> s[j] != c,
    ensures
        crate::text::after_last(s, c, to) == at + 1,
    decreases to,
{
    if at < to - 1 {
        lemma_after_last(s, c, at, to - 1);
    }
}

/// A peer is named after its host: without the user before it and the port behind it.
pub proof fn law_a_peer_is_named_after_its_host(
    destination: &str,
    r: String,
    user: Seq<char>,
    host: Seq<char>,
    port: Seq<char>,
)
    requires
        call_ensures(crate::cli::peer::peer_name_from_destination, (destination,), r),
        is_bare_host(host),
        forall|i: int| 0 <= i < port.len() ==> #[trigger] port[i] != '@',
    ensures
        destination@ == host ==> r@ == host,
        destination@ == user + seq!['@'] + host ==> r@ == host,
        destination@ == host + seq![':'] + port ==> r@ == host,
        destination@ == user + seq!['@'] + host + seq![':'] + port ==> r@ == host,
{
    let d = destination@;
    let n = d.len() as int;
    assert(!crate::cli::peer::is_bracket(host[0]) && !crate::cli::peer::is_bracket(host.last()));
    if d == host {
        lemma_after_last(d, '@', -1, n);
        assert(d.skip(0) =~= host);
        crate::text::lemma_find_is(host, ':', 0, host.len() as int);
        assert(host.take(host.len() as int) =~= host);
    }
    if d == user + seq!['@'] + host {
        let u = user.len() as int;
        assert(d[u] == '@');
        assert forall|j: int| u < j < n implies d[j] != '@' by {
            assert(d[j] == host[j - u - 1]);
        }
        lemma_after_last(d, '@', u, n);
        assert(d.skip(u + 1) =~= host);
        crate::text::lemma_find_is(host, ':', 0, host.len() as int);
        assert(host.take(host.len() as int) =~= host);
    }
    if d == host + seq![':'] + port {
        assert forall|j: int| 0 <= j < n implies d[j] != '@' by {
            if j < host.len() {
                assert(d[j] == host[j]);
            } else if j > host.len() {
                assert(d[j] == port[j - host.len() - 1]);
            }
        }
        lemma_after_last(d, '@', -1, n);
        assert(d.skip(0) =~= d);
        assert forall|j: int| 0 <= j < host.len() implies d[j] != ':' by {
            assert(d[j] == host[j]);
        }
        crate::text::lemma_find_is(d, ':', 0, host.len() as int);
        assert(d.take(host.len() as int) =~= host);
    }
    if d == user + seq!['@'] + host + seq![':'] + port {
        let u = user.len() as int;
        let h = host.len() as int;
        assert(d[u] == '@');
        assert forall|j: int| u < j < n implies d[j] != '@' by {
            if j < u + 1 + h {
                assert(d[j] == host[j - u - 1]);
            } else if j > u + 1 + h {
                assert(d[j] == port[j - u - h - 2]);
            }
        }
        lemma_after_last(d, '@', u, n);
        let rest = d.skip(u + 1);
        assert(rest =~= host + seq![':'] + port);
        assert forall|j: int| 0 <= j < h implies rest[j] != ':' by {
            assert(rest[j] == host[j]);
        }
        crate::text::lemma_find_is(rest, ':', 0, h);
        assert(rest.take(h) =~= host);
    }
}

/// The peer at `at` is the first with this name.
pub open spec fn is_listed(peers: Seq<PeerInfo>, at: int, name: Seq<char>) -> bool {
    &&& 0 <= at < peers.len()
    &&& peers[at].name@ == name
    &&& forall|j: int| 0 <= j < at ==> (#[trigger] peers[j]).name@ != name
}

proof fn lemma_listed(peers: Seq<PeerInfo>, at: int, name: Seq<char>)
    ensures
        is_listed(peers, at, name) ==> crate::search::first(
            peers,
            crate::cli::peer::is_named(name),
            0,
        ) == at,
        (forall|j: int| 0 <= j < peers.len() ==> (#[trigger] peers[j]).name@ != name)
            ==> crate::search::first(peers, crate::cli::peer::is_named(name), 0) == peers.len(),
{
    let p = crate::cli::peer::is_named(name);
    if is_listed(peers, at, name) {
        crate::search::lemma_first_is(peers, p, 0, at);
    }
    if forall|j: int| 0 <= j < peers.len() ==> (#[trigger] peers[j]).name@ != name {
        crate::search::lemma_first_is(peers, p, 0, peers.len() as int);
    }
}

/// Waiting for a peer ends when it is connected, gone or in error, or when the time is
/// up; and says which.
pub proof fn law_waiting_ends_with_what_happened(
    peers: &Vec<PeerInfo>,
    name: &str,
    timed_out: bool,
    secs: u64,
    r: Awaited,
    at: int,
)
    requires
        call_ensures(
            crate::cli::peer::wait_for_connected_peer,
            (peers, name, timed_out, secs),
            r,
        ),
    ensures
        (forall|j: int| 0 <= j < peers@.len() ==> (#[trigger] peers@[j]).name@ != name@) ==> r
            is Failed && r->Failed_0@ == "peer '"@ + name@ + "' is no longer configured"@,
        is_listed(peers@, at, name@) ==> {
            let peer = peers@[at];
            &&& peer.connection is Connected ==> r == Awaited::Connected(at as usize)
            &&& peer.connection is Error && peer.error is Some ==> r is Failed && r->Failed_0@
                == peer.error->0@
            &&& peer.connection is Error && peer.error is None ==> r is Failed && r->Failed_0@
                == "peer '"@ + name@ + "' could not be reached"@
            &&& (peer.connection is Connecting || peer.connection is Reconnecting) && !timed_out
                ==> r is NotYet
            &&& (peer.connection is Connecting || peer.connection is Reconnecting) && timed_out
                && peer.error is None ==> r is Failed && r->Failed_0@ == "peer '"@ + name@
                + "' did not connect within "@ + crate::text::decimal(secs as nat) + "s"@
            &&& (peer.connection is Connecting || peer.connection is Reconnecting) && timed_out
                && peer.error is Some ==> r is Failed && r->Failed_0@ == "peer '"@ + name@
                + "' did not connect within "@ + crate::text::decimal(secs as nat) + "s"@ + ": "@
                + peer.error->0@
        },
{
    lemma_listed(peers@, at, name@);
}

/// A connected peer is landed on at the workspace it has focused, else at its first;
/// where it has none, or a new one is wanted, one is made. Either is shown.
pub open spec fn lands_right(peer: PeerInfo, name: Seq<char>, fresh: bool, r: Landing) -> bool {
    &&& fresh || peer.workspaces@.len() == 0 ==> r is Create
    &&& !fresh && peer.workspaces@.len() > 0 ==> r is Open
    &&& r matches Landing::Create(made) ==> made.name@ == name && made.focus && made.cwd is None
        && made.label is None
    &&& r matches Landing::Open(open) ==> {
        &&& open.name is Some && open.name->0@ == name
        &&& open.focus
        &&& !open.takeover
        &&& open.label is None
        &&& exists|i: int|
            0 <= i < peer.workspaces@.len() && (#[trigger] peer.workspaces@[i]).workspace_id@
                == open.target@ && (peer.workspaces@[i].focused || (i == 0 && forall|j: int|
                0 <= j < peer.workspaces@.len() ==> !(#[trigger] peer.workspaces@[j]).focused))
    }
}

/// A connected peer is landed on as [`lands_right`] says.
pub proof fn law_a_connection_lands_where_the_peer_is(
    peer: PeerInfo,
    name: &str,
    fresh: bool,
    r: Landing,
)
    requires
        call_ensures(crate::cli::peer::connect_landing, (&peer, name, fresh), r),
    ensures
        lands_right(peer, name@, fresh, r),
{
    lemma_lands(peer, name@, fresh, r);
}

proof fn lemma_lands(peer: PeerInfo, name: Seq<char>, fresh: bool, r: Landing)
    requires
        crate::cli::peer::lands(peer, name, fresh, r),
    ensures
        lands_right(peer, name, fresh, r),
{
    let p = crate::cli::peer::is_focused();
    let workspaces = peer.workspaces@;
    crate::search::lemma_first(workspaces, p, 0);
    let at = crate::search::first(workspaces, p, 0);
    if at < workspaces.len() {
        assert(workspaces[at].focused);
    } else {
        assert forall|j: int| 0 <= j < workspaces.len() implies !(
        #[trigger] workspaces[j]).focused by {
            assert(!p(workspaces[j]));
        }
        if workspaces.len() > 0 {
            assert(workspaces[0].workspace_id@ == workspaces[0].workspace_id@);
        }
    }
}

/// Connecting goes step by step: the destination is made ready unless that is skipped,
/// a peer that is not configured is added, and a peer that is connected is landed on.
pub proof fn law_connecting_goes_step_by_step(
    command: ConnectCommand,
    peers: &Vec<PeerInfo>,
    prepared: Result<(), String>,
    answer: serde_json::Value,
    timed_out: bool,
    begun: ConnectStep,
    ready: ConnectStep,
    listed: ConnectStep,
    added: ConnectStep,
    waited: ConnectStep,
    at: int,
)
    requires
        call_ensures(crate::cli::peer::connect_begin, (&command,), begun),
        call_ensures(crate::cli::peer::connect_prepared, (prepared,), ready),
        call_ensures(crate::cli::peer::connect_listed, (&command, peers), listed),
        call_ensures(crate::cli::peer::connect_added, (&answer,), added),
        call_ensures(crate::cli::peer::connect_waited, (&command, peers, timed_out), waited),
    ensures
        command.skip_ssh_check ==> begun is List,
        !command.skip_ssh_check ==> begun is Prepare,
        prepared is Ok ==> ready is List,
        prepared matches Err(error) ==> ready == ConnectStep::Failed(error),
        is_listed(peers@, at, command.name@) ==> listed is Wait,
        (forall|j: int| 0 <= j < peers@.len() ==> (#[trigger] peers@[j]).name@ != command.name@)
            ==> {
            &&& listed matches ConnectStep::Add(params)
            &&& params.name == command.name
            &&& params.target == (PeerTargetSpec::Ssh {
                destination: command.destination,
                session: command.session,
            })
        },
        json(answer).member("error"@) is None ==> added is Wait,
        json(answer).member("error"@) is Some ==> added is Failed,
        is_listed(peers@, at, command.name@) && peers@[at].connection is Connected ==> waited
            is Land && lands_right(
            peers@[at],
            command.name@,
            command.new_workspace,
            waited->Land_0,
        ),
        is_listed(peers@, at, command.name@) && peers@[at].connection is Error ==> waited is Failed,
        is_listed(peers@, at, command.name@) && (peers@[at].connection is Connecting
            || peers@[at].connection is Reconnecting) ==> waited is Wait == !timed_out
            && waited is Failed == timed_out,
{
    lemma_listed(peers@, at, command.name@);
    crate::search::lemma_any(peers@, crate::cli::peer::is_named(command.name@));
    if waited is Land && is_listed(peers@, at, command.name@) {
        lemma_lands(peers@[at], command.name@, command.new_workspace, waited->Land_0);
    }
}

/// A peer is configured when one of that name is listed.
pub proof fn law_a_listed_peer_is_configured(
    peers: &Vec<PeerInfo>,
    name: &str,
    r: bool,
)
    requires
        call_ensures(crate::cli::peer::peer_is_configured, (peers, name), r),
    ensures
        r == exists|i: int| 0 <= i < peers@.len() && (#[trigger] peers@[i]).name@ == name@,
{
    let p = crate::cli::peer::is_named(name@);
    crate::search::lemma_any(peers@, p);
    if exists|i: int| 0 <= i < peers@.len() && (#[trigger] peers@[i]).name@ == name@ {
        let i = choose|i: int| 0 <= i < peers@.len() && (#[trigger] peers@[i]).name@ == name@;
        assert(p(peers@[i]));
    }
}

/// What a command exits with: misuse with 2, a failure with 1, success with 0.
pub proof fn law_exits_say_how_it_went(
    misuse: Misuse,
    misused: i32,
    setup: SetupReport,
    set_up: i32,
    report: PeerReport,
    response: serde_json::Value,
    reported: i32,
)
    requires
        call_ensures(Misuse::exit_code, (&misuse,), misused),
        call_ensures(SetupReport::exit_code, (&setup,), set_up),
        call_ensures(PeerReport::exit_code, (&report, &response), reported),
    ensures
        misused == 2,
        setup is Ready ==> set_up == 0,
        setup is Failed ==> set_up == 1,
        report is Table ==> reported == 0,
        report is Error ==> reported == 1,
        report is Raw && json(response).member("error"@) is None ==> reported == 0,
        report is Raw && json(response).member("error"@) is Some ==> reported == 1,
{
}

/// A destination is set up as it is named; it says that it is ready, or why not.
pub proof fn law_a_destination_is_set_up(
    args: &[String],
    r: Result<(String, bool), String>,
    destination: &str,
    prepared: Result<(), String>,
    told: SetupReport,
)
    requires
        call_ensures(crate::cli::peer::peer_setup_ssh, (args,), r),
        call_ensures(crate::cli::peer::setup_prepared, (destination, prepared), told),
    ensures
        args@.len() == 0 || !is_word(args@[0]@) ==> r is Err,
        args@.len() == 1 && is_word(args@[0]@) ==> r is Ok && (r->Ok_0).0@ == args@[0]@
            && !(r->Ok_0).1,
        args@.len() == 2 && is_word(args@[0]@) && (args@[1]@ == "--yes"@ || args@[1]@ == "-y"@)
            ==> r is Ok && (r->Ok_0).0@ == args@[0]@ && (r->Ok_0).1,
        args@.len() == 2 && is_word(args@[0]@) && args@[1]@ != "--yes"@ && args@[1]@ != "-y"@ ==> r
            is Err && r->Err_0@ == "unknown option: "@ + args@[1]@,
        prepared is Ok ==> told is Ready && (told->Ready_0)@ == destination@
            + " is ready to be added as a peer"@,
        prepared matches Err(error) ==> told == SetupReport::Failed(error),
{
    lemma_leading(args@);
    let x = crate::cli::peer::texts(args@);
    if args@.len() == 1 {
        assert(x.skip(1).len() == 0);
    }
    if args@.len() == 2 {
        let rest = x.skip(1);
        assert(x[1] == args@[1]@ && rest[0] == args@[1]@);
        assert(rest.skip(1).len() == 0);
        reveal_with_fuel(crate::cli::peer::yes_options, 2);
    }
}

proof fn lemma_open_flags_differ()
    ensures
        "--label"@ != "--peer"@,
        "--focus"@ != "--peer"@ && "--focus"@ != "--label"@ && "--focus"@ != "--no-focus"@,
        "--no-focus"@ != "--peer"@ && "--no-focus"@ != "--label"@,
        "--takeover"@ != "--peer"@ && "--takeover"@ != "--label"@ && "--takeover"@ != "--focus"@
            && "--takeover"@ != "--no-focus"@,
{
    reveal_strlit("--peer");
    reveal_strlit("--label");
    reveal_strlit("--focus");
    reveal_strlit("--no-focus");
    reveal_strlit("--takeover");
    assert("--peer"@.len() == 6 && "--label"@.len() == 7 && "--focus"@.len() == 7
        && "--no-focus"@.len() == 10 && "--takeover"@.len() == 10);
    assert("--label"@[2] == 'l' && "--focus"@[2] == 'f' && "--no-focus"@[2] == 'n'
        && "--takeover"@[2] == 't');
}

/// A target is opened as it is named; a peer, a label and each flag are taken as they
/// are said, and of two words about focus the last one counts.
pub proof fn law_a_target_is_opened_as_said(
    args: &[String],
    r: Result<PeerWorkspaceOpenParams, String>,
)
    requires
        call_ensures(crate::cli::peer::peer_open, (args,), r),
    ensures
        args@.len() == 0 || !is_word(args@[0]@) ==> r is Err,
        r matches Ok(open) ==> args@.len() > 0 && open.target@ == args@[0]@,
        args@.len() == 1 && is_word(args@[0]@) ==> r is Ok && r->Ok_0.name is None
            && r->Ok_0.label is None && !r->Ok_0.focus && !r->Ok_0.takeover,
        args@.len() == 2 && is_word(args@[0]@) && args@[1]@ == "--focus"@ ==> r is Ok
            && r->Ok_0.focus && !r->Ok_0.takeover,
        args@.len() == 2 && is_word(args@[0]@) && args@[1]@ == "--takeover"@ ==> r is Ok
            && !r->Ok_0.focus && r->Ok_0.takeover,
        args@.len() == 3 && is_word(args@[0]@) && args@[1]@ == "--peer"@ ==> r is Ok
            && r->Ok_0.name is Some && r->Ok_0.name->0@ == args@[2]@ && r->Ok_0.label is None,
        args@.len() == 3 && is_word(args@[0]@) && args@[1]@ == "--label"@ ==> r is Ok
            && r->Ok_0.label is Some && r->Ok_0.label->0@ == args@[2]@ && r->Ok_0.name is None,
        args@.len() == 3 && is_word(args@[0]@) && args@[1]@ == "--focus"@ && args@[2]@
            == "--no-focus"@ ==> r is Ok && !r->Ok_0.focus,
        args@.len() == 3 && is_word(args@[0]@) && args@[1]@ == "--no-focus"@ && args@[2]@
            == "--focus"@ ==> r is Ok && r->Ok_0.focus,
{
    lemma_leading(args@);
    lemma_open_flags_differ();
    let x = crate::cli::peer::texts(args@);
    let rest = x.skip(1);
    if args@.len() == 1 {
        assert(rest.len() == 0);
    }
    if args@.len() == 2 {
        assert(x[1] == args@[1]@ && rest[0] == args@[1]@);
        assert(rest.skip(1).len() == 0);
        reveal_with_fuel(crate::cli::peer::open_options, 2);
    }
    if args@.len() == 3 {
        assert(x[1] == args@[1]@ && rest[0] == args@[1]@ && x[2] == args@[2]@ && rest[1]
            == args@[2]@);
        assert(rest.skip(2).len() == 0);
        assert(rest.skip(1)[0] == args@[2]@);
        assert(rest.skip(1).skip(1).len() == 0);
        reveal_with_fuel(crate::cli::peer::open_options, 3);
    }
}

/// A peer's state is told by its label, with the attempt where there is one; and its
/// target by its route.
pub proof fn law_a_peer_is_summed_up(
    peer: PeerInfo,
    state: String,
    target: PeerTargetSpec,
    route: String,
)
    requires
        call_ensures(crate::cli::peer::connection_summary, (&peer,), state),
        call_ensures(crate::cli::peer::target_summary, (&target,), route),
    ensures
        peer.attempt is None && peer.connection is Connected ==> state@ == "connected"@,
        peer.attempt is None && peer.connection is Connecting ==> state@ == "connecting"@,
        peer.attempt is None && peer.connection is Error ==> state@ == "error"@,
        peer.attempt is Some && peer.connection is Reconnecting ==> state@ == "reconnecting"@
            + " #"@ + crate::text::decimal(peer.attempt->0 as nat),
        target@ matches crate::app::peers::TargetView::SocketPath(path) ==> route@ == path,
        target@ matches crate::app::peers::TargetView::Ssh { destination, session: None }
            ==> route@ == "ssh "@ + destination,
        target@ matches crate::app::peers::TargetView::Ssh { destination, session: Some(session) }
            ==> route@ == "ssh "@ + destination + " (session "@ + session + ")"@,
{
}

/// The text stands at this column of the row.
pub open spec fn at_column(row: Seq<char>, column: int, text: Seq<char>) -> bool {
    &&& column + text.len() <= row.len()
    &&& row.subrange(column, column + text.len()) == text
}

proof fn lemma_columns(a: Seq<char>, b: Seq<char>, c: Seq<char>, d: Seq<char>)
    requires
        a.len() <= 20,
        b.len() <= 16,
        c.len() <= 10,
    ensures
        ({
            let row = crate::cli::peer::row(a, b, c, d);
            &&& at_column(row, 0, a)
            &&& at_column(row, 21, b)
            &&& at_column(row, 38, c)
            &&& at_column(row, 49, d)
        }),
{
    reveal_strlit(" ");
    let row = crate::cli::peer::row(a, b, c, d);
    assert(" "@.len() == 1);
    assert(crate::cli::peer::padded(a, 20).len() == 20);
    assert(crate::cli::peer::padded(b, 16).len() == 16);
    assert(crate::cli::peer::padded(c, 10).len() == 10);
    assert(row.subrange(0, a.len() as int) =~= a);
    assert(row.subrange(21, 21int + b.len()) =~= b);
    assert(row.subrange(38, 38int + c.len()) =~= c);
    assert(row.subrange(49, 49int + d.len()) =~= d);
}

proof fn lemma_first_row(peers: Seq<PeerInfo>)
    ensures
        crate::cli::peer::all_rows(peers).len() >= 1 + peers.len(),
        crate::cli::peer::all_rows(peers)[0] == crate::cli::peer::row(
            "name"@,
            "connection"@,
            "workspaces"@,
            "target"@,
        ),
    decreases peers.len(),
{
    if peers.len() > 0 {
        lemma_first_row(peers.drop_last());
    }
}

proof fn lemma_peer_row(peers: Seq<PeerInfo>, i: int)
    requires
        0 <= i < peers.len(),
    ensures
        crate::cli::peer::all_rows(peers).contains(
            crate::cli::peer::row(
                peers[i].name@,
                crate::cli::peer::connection_text(peers[i]),
                crate::text::decimal(peers[i].workspaces@.len()),
                crate::cli::peer::target_text(peers[i].target@),
            ),
        ),
    decreases peers.len(),
{
    let head = crate::cli::peer::all_rows(peers.drop_last());
    let own = crate::cli::peer::peer_rows(peers.last());
    if i == peers.len() - 1 {
        assert((head + own)[head.len() as int] == own[0]);
    } else {
        lemma_peer_row(peers.drop_last(), i);
        let line = crate::cli::peer::row(
            peers[i].name@,
            crate::cli::peer::connection_text(peers[i]),
            crate::text::decimal(peers[i].workspaces@.len()),
            crate::cli::peer::target_text(peers[i].target@),
        );
        let k = choose|k: int| 0 <= k < head.len() && head[k] == line;
        assert((head + own)[k] == line);
    }
}

/// The table has its heads over its columns, and a row for every peer with its facts
/// under them.
pub proof fn law_the_table_has_a_row_for_every_peer(
    peers: &Vec<PeerInfo>,
    r: Vec<String>,
    i: int,
)
    requires
        call_ensures(crate::cli::peer::peer_table, (peers,), r),
        0 <= i < peers@.len(),
        peers@[i].name@.len() <= 20,
        peers@[i].attempt is None,
        peers@[i].connection is Connected,
        crate::text::decimal(peers@[i].workspaces@.len()).len() <= 10,
    ensures
        r@.len() > peers@.len(),
        at_column(r@[0]@, 0, "name"@),
        at_column(r@[0]@, 21, "connection"@),
        at_column(r@[0]@, 38, "workspaces"@),
        at_column(r@[0]@, 49, "target"@),
        exists|k: int|
            0 <= k < r@.len() && at_column((#[trigger] r@[k])@, 0, peers@[i].name@) && at_column(
                r@[k]@,
                21,
                "connected"@,
            ) && at_column(
                r@[k]@,
                38,
                crate::text::decimal(peers@[i].workspaces@.len()),
            ),
{
    reveal_strlit("name");
    reveal_strlit("connection");
    reveal_strlit("connected");
    reveal_strlit("workspaces");
    let rows = crate::cli::peer::all_rows(peers@);
    lemma_first_row(peers@);
    lemma_peer_row(peers@, i);
    lemma_columns("name"@, "connection"@, "workspaces"@, "target"@);
    let line = crate::cli::peer::row(
        peers@[i].name@,
        crate::cli::peer::connection_text(peers@[i]),
        crate::text::decimal(peers@[i].workspaces@.len()),
        crate::cli::peer::target_text(peers@[i].target@),
    );
    lemma_columns(
        peers@[i].name@,
        "connected"@,
        crate::text::decimal(peers@[i].workspaces@.len()),
        crate::cli::peer::target_text(peers@[i].target@),
    );
    let k = choose|k: int| 0 <= k < rows.len() && rows[k] == line;
    assert(crate::cli::peer::texts(r@)[k] == r@[k]@);
    assert(crate::cli::peer::texts(r@)[0] == r@[0]@);
}

/// What is reported: the raw answer where that is asked for, an error where it is
/// one, and else the table.
pub proof fn law_peers_are_reported_as_asked(
    response: serde_json::Value,
    peers: Option<Vec<PeerInfo>>,
    raw: bool,
    r: PeerReport,
)
    requires
        call_ensures(crate::cli::peer::report_peers, (&response, peers, raw), r),
    ensures
        raw ==> r is Raw,
        !raw && json(response).member("error"@) is Some ==> r is Error,
        !raw && json(response).member("error"@) is None && peers is Some ==> r is Table,
        !raw && json(response).member("error"@) is None && peers is None ==> r is Raw,
{
}

proof fn lemma_browser_commands_differ()
    ensures
        "navigate"@ != "open"@,
        "reload"@ != "open"@ && "reload"@ != "navigate"@,
        "back"@ != "open"@ && "back"@ != "navigate"@ && "back"@ != "reload"@,
        "forward"@ != "open"@ && "forward"@ != "navigate"@ && "forward"@ != "reload"@ && "forward"@
            != "back"@,
        "close"@ != "open"@ && "close"@ != "navigate"@ && "close"@ != "reload"@ && "close"@
            != "back"@ && "close"@ != "forward"@,
        "info"@ != "open"@ && "info"@ != "navigate"@ && "info"@ != "reload"@ && "info"@ != "back"@
            && "info"@ != "forward"@ && "info"@ != "close"@,
        "help"@ != "open"@ && "help"@ != "navigate"@ && "help"@ != "reload"@ && "help"@ != "back"@
            && "help"@ != "forward"@ && "help"@ != "close"@ && "help"@ != "info"@,
{
    reveal_strlit("open");
    reveal_strlit("navigate");
    reveal_strlit("reload");
    reveal_strlit("back");
    reveal_strlit("forward");
    reveal_strlit("close");
    reveal_strlit("info");
    reveal_strlit("help");
    assert("open"@.len() == 4 && "navigate"@.len() == 8 && "reload"@.len() == 6 && "back"@.len()
        == 4);
    assert("forward"@.len() == 7 && "close"@.len() == 5 && "info"@.len() == 4 && "help"@.len()
        == 4);
    assert("open"@[0] == 'o' && "back"@[0] == 'b' && "info"@[0] == 'i' && "help"@[0] == 'h');
}

/// Each word drives the browser as it says, in the pane that is named.
pub proof fn law_browsers_are_driven_by_their_word(
    args: &[String],
    panes: &[String],
    r: Result<BrowserCli, Misuse>,
)
    requires
        panes@.len() == args@.len(),
        call_ensures(crate::cli::browser::run_browser_command, (args, panes), r),
    ensures
        args@.len() == 0 ==> r is Err && r->Err_0 is NoSuchCommand,
        args@.len() == 1 && args@[0]@ == "help"@ ==> r is Ok && r->Ok_0 is Help,
        args@.len() >= 1 && args@[0]@ == "open"@ && r is Ok ==> r->Ok_0 is Open,
        args@.len() == 1 && args@[0]@ == "open"@ ==> r is Ok && r->Ok_0->Open_0.url is None
            && r->Ok_0->Open_0.pane_id is None,
        args@.len() == 3 && args@[0]@ == "navigate"@ ==> r is Ok && r->Ok_0 is Navigate
            && r->Ok_0->Navigate_0.pane_id@ == panes@[1]@ && r->Ok_0->Navigate_0.url@ == args@[2]@,
        args@.len() == 2 && args@[0]@ == "navigate"@ ==> r is Err,
        args@.len() >= 2 && args@[0]@ == "reload"@ ==> r is Ok && r->Ok_0 is Reload
            && r->Ok_0->Reload_0.pane_id@ == panes@[1]@,
        args@.len() >= 2 && args@[0]@ == "back"@ ==> r is Ok && r->Ok_0 is Back
            && r->Ok_0->Back_0.pane_id@ == panes@[1]@,
        args@.len() >= 2 && args@[0]@ == "forward"@ ==> r is Ok && r->Ok_0 is Forward
            && r->Ok_0->Forward_0.pane_id@ == panes@[1]@,
        args@.len() >= 2 && args@[0]@ == "close"@ ==> r is Ok && r->Ok_0 is Close
            && r->Ok_0->Close_0.pane_id@ == panes@[1]@,
        args@.len() >= 2 && args@[0]@ == "info"@ ==> r is Ok && r->Ok_0 is Info
            && r->Ok_0->Info_0.pane_id@ == panes@[1]@,
        args@.len() == 1 && args@[0]@ == "close"@ ==> r is Err && r->Err_0 is Message && (
        r->Err_0)->Message_0@ == "usage: herdr browser "@ + "close"@ + " <pane_id>"@,
{
    lemma_browser_commands_differ();
    if args@.len() >= 2 {
        assert(panes@.skip(1)[0] == panes@[1]);
    }
    if args@.len() == 3 {
        assert(args@.skip(1)[1] == args@[2]);
    }
}

/// A browser is opened at the page that is given, in the pane that is named.
pub proof fn law_a_browser_is_opened_as_said(
    args: &[String],
    panes: &[String],
    r: Result<BrowserOpenParams, String>,
)
    requires
        panes@.len() == args@.len(),
        call_ensures(crate::cli::browser::browser_open, (args, panes), r),
    ensures
        args@.len() == 0 ==> r is Ok && r->Ok_0.url is None && r->Ok_0.pane_id is None,
        args@.len() == 1 && args@[0]@ != "--pane"@ ==> r is Ok && r->Ok_0.pane_id is None
            && r->Ok_0.url is Some && r->Ok_0.url->0@ == args@[0]@,
        args@.len() == 1 && args@[0]@ == "--pane"@ ==> r is Err && r->Err_0@
            == "usage: herdr browser open [url] [--pane <pane_id>]"@,
        args@.len() == 2 && args@[0]@ == "--pane"@ ==> r is Ok && r->Ok_0.url is None
            && r->Ok_0.pane_id is Some && r->Ok_0.pane_id->0@ == panes@[1]@,
        args@.len() == 3 && args@[0]@ != "--pane"@ && args@[1]@ == "--pane"@ ==> r is Ok
            && r->Ok_0.url is Some && r->Ok_0.url->0@ == args@[0]@ && r->Ok_0.pane_id is Some
            && r->Ok_0.pane_id->0@ == panes@[2]@,
{
    let x = crate::cli::peer::texts(args@);
    let y = crate::cli::peer::texts(panes@);
    reveal_with_fuel(crate::cli::browser::open_arguments, 3);
    if args@.len() == 1 {
        assert(x[0] == args@[0]@ && x.skip(1).len() == 0);
    }
    if args@.len() == 2 {
        assert(x[0] == args@[0]@ && y[1] == panes@[1]@ && x.skip(2).len() == 0);
    }
    if args@.len() == 3 {
        assert(x[0] == args@[0]@ && x.skip(1)[0] == args@[1]@ && y.skip(1)[1] == panes@[2]@);
        assert(x.skip(1).skip(2).len() == 0);
    }
}

/// A page action is for the pane that is named first.
pub proof fn law_a_page_action_is_for_its_pane(
    args: &[String],
    panes: &[String],
    name: &str,
    acted: Result<BrowserPaneTarget, String>,
    gone: Result<BrowserNavigateParams, String>,
)
    requires
        panes@.len() == args@.len(),
        call_ensures(crate::cli::browser::browser_page_action, (panes, name), acted),
        call_ensures(crate::cli::browser::browser_navigate, (args, panes), gone),
    ensures
        acted is Ok == (panes@.len() > 0),
        acted is Ok ==> acted->Ok_0.pane_id@ == panes@[0]@,
        acted is Err ==> acted->Err_0@ == "usage: herdr browser "@ + name@ + " <pane_id>"@,
        gone is Ok == (args@.len() >= 2),
        gone is Ok ==> gone->Ok_0.pane_id@ == panes@[0]@ && gone->Ok_0.url@ == args@[1]@,
        gone is Err ==> gone->Err_0@ == "usage: herdr browser navigate <pane_id> <url>"@,
{
}

} // verus!
