//! `herdr browser`: browser panes from the command line.
//!
//! A pane can be named in more than one way, and the name that requests use is
//! looked up elsewhere. So everything here takes, next to the arguments, the pane
//! each of them names if it is read as a pane: `panes[i]` is for `args[i]`.

use vstd::prelude::*;

use crate::api::schema::browser::{BrowserNavigateParams, BrowserOpenParams, BrowserPaneTarget};
use crate::cli::peer::Misuse;
use crate::text::{cat3, str_eq};

verus! {

pub const OPEN_USAGE: &'static str = "usage: herdr browser open [url] [--pane <pane_id>]";

pub const NAVIGATE_USAGE: &'static str = "usage: herdr browser navigate <pane_id> <url>";

/// What a browser command is to do.
#[derive(Debug, PartialEq, Eq)]
pub enum BrowserCli {
    Open(BrowserOpenParams),
    Navigate(BrowserNavigateParams),
    Reload(BrowserPaneTarget),
    Back(BrowserPaneTarget),
    Forward(BrowserPaneTarget),
    Close(BrowserPaneTarget),
    Info(BrowserPaneTarget),
    Help,
}

/// What the arguments of `browser open` come to, on top of those read so far: the
/// pane and the page. The last of each counts.
pub open spec fn open_arguments(
    pane: Option<Seq<char>>,
    url: Option<Seq<char>>,
    args: Seq<Seq<char>>,
    panes: Seq<Seq<char>>,
) -> Result<(Option<Seq<char>>, Option<Seq<char>>), Seq<char>>
    decreases args.len(),
{
    if args.len() == 0 {
        Ok((pane, url))
    } else if args[0] == "--pane"@ {
        if args.len() < 2 {
            Err(OPEN_USAGE@)
        } else {
            open_arguments(Some(panes[1]), url, args.skip(2), panes.skip(2))
        }
    } else {
        open_arguments(pane, Some(args[0]), args.skip(1), panes.skip(1))
    }
}

/// Reads the arguments of `browser open`.
pub fn browser_open(args: &[String], panes: &[String]) -> (r: Result<BrowserOpenParams, String>)
    requires
        panes@.len() == args@.len(),
    ensures
        match open_arguments(
            None,
            None,
            crate::cli::peer::texts(args@),
            crate::cli::peer::texts(panes@),
        ) {
            Ok((pane, url)) => r is Ok && crate::text::opt_view(r->Ok_0.pane_id) == pane
                && crate::text::opt_view(r->Ok_0.url) == url,
            Err(error) => r is Err && r->Err_0@ == error,
        },
{
    let ghost all = crate::cli::peer::texts(args@);
    let ghost named = crate::cli::peer::texts(panes@);
    let mut pane_id: Option<String> = None;
    let mut url: Option<String> = None;
    let mut i: usize = 0;
    assert(all.skip(0) =~= all);
    assert(named.skip(0) =~= named);
    while i < args.len()
        invariant
            all == crate::cli::peer::texts(args@),
            named == crate::cli::peer::texts(panes@),
            panes@.len() == args@.len(),
            i <= args@.len(),
            open_arguments(None, None, all, named) == open_arguments(
                crate::text::opt_view(pane_id),
                crate::text::opt_view(url),
                all.skip(i as int),
                named.skip(i as int),
            ),
        decreases args@.len() - i,
    {
        let ghost rest = all.skip(i as int);
        assert(rest[0] == all[i as int]);
        assert(rest.skip(1) =~= all.skip(i + 1));
        assert(rest.len() >= 2 ==> rest.skip(2) =~= all.skip(i + 2));
        let ghost ids = named.skip(i as int);
        assert(ids.skip(1) =~= named.skip(i + 1));
        assert(ids.len() >= 2 ==> ids[1] == named[i + 1] && ids.skip(2) =~= named.skip(i + 2));
        if str_eq(args[i].as_str(), "--pane") {
            if args.len() - i < 2 {
                return Err(OPEN_USAGE.to_owned());
            }
            pane_id = Some(panes[i + 1].clone());
            i += 2;
        } else {
            url = Some(args[i].clone());
            i += 1;
        }
    }
    Ok(BrowserOpenParams { pane_id, url })
}

/// Reads the arguments of `browser navigate`.
pub fn browser_navigate(args: &[String], panes: &[String]) -> (r: Result<
    BrowserNavigateParams,
    String,
>)
    requires
        panes@.len() == args@.len(),
    ensures
        if args@.len() < 2 {
            r is Err && r->Err_0@ == NAVIGATE_USAGE@
        } else {
            r is Ok && r->Ok_0.pane_id@ == panes@[0]@ && r->Ok_0.url@ == args@[1]@
        },
{
    if args.len() < 2 {
        return Err(NAVIGATE_USAGE.to_owned());
    }
    Ok(BrowserNavigateParams { pane_id: panes[0].clone(), url: args[1].clone() })
}

/// Reads the arguments of a command whose only argument is the pane, given as
/// the panes they name.
pub fn browser_page_action(panes: &[String], name: &str) -> (r: Result<BrowserPaneTarget, String>)
    ensures
        if panes@.len() == 0 {
            r is Err && r->Err_0@ == "usage: herdr browser "@ + name@ + " <pane_id>"@
        } else {
            r is Ok && r->Ok_0.pane_id@ == panes@[0]@
        },
{
    if panes.len() == 0 {
        return Err(cat3("usage: herdr browser ", name, " <pane_id>"));
    }
    Ok(BrowserPaneTarget { pane_id: panes[0].clone() })
}

/// What the arguments of a browser command come to.
pub open spec fn reads_browser_command(
    args: Seq<String>,
    panes: Seq<String>,
    r: Result<BrowserCli, Misuse>,
) -> bool {
    if args.len() == 0 {
        r is Err && r->Err_0 is NoSuchCommand
    } else {
        let rest = args.skip(1);
        let pane = panes.skip(1);
        let said = args[0]@;
        let refused = |error: Seq<char>|
            r is Err && r->Err_0 is Message && (r->Err_0)->Message_0@ == error;
        let no_pane = |name: Seq<char>| refused("usage: herdr browser "@ + name + " <pane_id>"@);
        if said == "open"@ {
            match open_arguments(
                None,
                None,
                crate::cli::peer::texts(rest),
                crate::cli::peer::texts(pane),
            ) {
                Ok((target, url)) => {
                    &&& r is Ok
                    &&& r->Ok_0 is Open
                    &&& crate::text::opt_view(((r->Ok_0)->Open_0).pane_id) == target
                    &&& crate::text::opt_view(((r->Ok_0)->Open_0).url) == url
                },
                Err(error) => refused(error),
            }
        } else if said == "navigate"@ {
            if rest.len() < 2 {
                refused(NAVIGATE_USAGE@)
            } else {
                &&& r is Ok
                &&& r->Ok_0 is Navigate
                &&& ((r->Ok_0)->Navigate_0).pane_id@ == pane[0]@
                &&& ((r->Ok_0)->Navigate_0).url@ == rest[1]@
            }
        } else if said == "reload"@ {
            if rest.len() == 0 {
                no_pane("reload"@)
            } else {
                r is Ok && r->Ok_0 is Reload && ((r->Ok_0)->Reload_0).pane_id@ == pane[0]@
            }
        } else if said == "back"@ {
            if rest.len() == 0 {
                no_pane("back"@)
            } else {
                r is Ok && r->Ok_0 is Back && ((r->Ok_0)->Back_0).pane_id@ == pane[0]@
            }
        } else if said == "forward"@ {
            if rest.len() == 0 {
                no_pane("forward"@)
            } else {
                r is Ok && r->Ok_0 is Forward && ((r->Ok_0)->Forward_0).pane_id@ == pane[0]@
            }
        } else if said == "close"@ {
            if rest.len() == 0 {
                no_pane("close"@)
            } else {
                r is Ok && r->Ok_0 is Close && ((r->Ok_0)->Close_0).pane_id@ == pane[0]@
            }
        } else if said == "info"@ {
            if rest.len() == 0 {
                no_pane("info"@)
            } else {
                r is Ok && r->Ok_0 is Info && ((r->Ok_0)->Info_0).pane_id@ == pane[0]@
            }
        } else if said == "help"@ || said == "--help"@ || said == "-h"@ {
            r == Ok::<BrowserCli, Misuse>(BrowserCli::Help)
        } else {
            r is Err && r->Err_0 is NoSuchCommand
        }
    }
}

/// Reads the arguments of a browser command.
pub fn run_browser_command(args: &[String], panes: &[String]) -> (r: Result<BrowserCli, Misuse>)
    requires
        panes@.len() == args@.len(),
    ensures
        reads_browser_command(args@, panes@, r),
{
    if args.len() == 0 {
        return Err(Misuse::NoSuchCommand);
    }
    let rest = vstd::slice::slice_subrange(args, 1, args.len());
    assert(rest@ =~= args@.skip(1));
    let named = vstd::slice::slice_subrange(panes, 1, panes.len());
    assert(named@ =~= panes@.skip(1));
    let said = args[0].as_str();
    if str_eq(said, "open") {
        return match browser_open(rest, named) {
            Ok(params) => Ok(BrowserCli::Open(params)),
            Err(error) => Err(Misuse::Message(error)),
        };
    }
    if str_eq(said, "navigate") {
        return match browser_navigate(rest, named) {
            Ok(params) => Ok(BrowserCli::Navigate(params)),
            Err(error) => Err(Misuse::Message(error)),
        };
    }
    if !(str_eq(said, "reload") || str_eq(said, "back") || str_eq(said, "forward") || str_eq(
        said,
        "close",
    ) || str_eq(said, "info")) {
        return if str_eq(said, "help") || str_eq(said, "--help") || str_eq(said, "-h") {
            Ok(BrowserCli::Help)
        } else {
            Err(Misuse::NoSuchCommand)
        };
    }
    let target = match browser_page_action(named, said) {
        Ok(target) => target,
        Err(error) => {
            return Err(Misuse::Message(error));
        },
    };
    if str_eq(said, "reload") {
        Ok(BrowserCli::Reload(target))
    } else if str_eq(said, "back") {
        Ok(BrowserCli::Back(target))
    } else if str_eq(said, "forward") {
        Ok(BrowserCli::Forward(target))
    } else if str_eq(said, "close") {
        Ok(BrowserCli::Close(target))
    } else {
        Ok(BrowserCli::Info(target))
    }
}

} // verus!
