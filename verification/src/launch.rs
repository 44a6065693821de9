//! The start of the application: which directory is served, whether a server
//! is started, and which window is opened.

use vstd::prelude::*;
use crate::assets::{join, joined, listen_address, ServerBinding};
use crate::config::AppConfig;
use crate::window::{lemma_url_names_port, plan_window, url_port, window_url, WindowPlan};

verus! {

/// How the application was entered.
#[derive(Debug, Clone, Copy, PartialEq, Eq, Structural)]
pub enum EntryPoint {
    /// As a program of its own, configured by its arguments. It always serves
    /// its assets itself.
    Standalone,
    /// From a hosting process, configured by the environment. It serves its
    /// assets unless the configuration says that someone else does.
    Embedded,
}

/// The directory to serve: the override where there is one, as it is, and
/// `dist` below the working directory otherwise.
pub open spec fn dist_root(custom: Option<Seq<char>>, cwd: Seq<char>) -> Seq<char> {
    match custom {
        Some(path) => path,
        None => joined(cwd, "dist"@),
    }
}

/// Whether a server is started.
pub open spec fn serves_assets(entry: EntryPoint, external: bool) -> bool {
    entry == EntryPoint::Standalone || !external
}

/// Resolves the directory to serve. `cwd` is the working directory; it is
/// read only where `custom` is `None`.
pub fn taupy_dist_path(custom: Option<String>, cwd: &str) -> (out: String)
    ensures
        out@ == dist_root(
            match custom {
                Some(path) => Some(path@),
                None => None,
            },
            cwd@,
        ),
{
    match custom {
        Some(path) => path,
        None => join(cwd, "dist"),
    }
}

/// What is started: the server, if any, and the window.
#[derive(Debug, Clone)]
pub struct LaunchPlan {
    /// The binding of the asset server, where one is started.
    pub server: Option<ServerBinding>,
    /// The window to open.
    pub window: WindowPlan,
}

/// `plan` is the start that the configuration `cfg` asks for, in the working
/// directory `cwd`, entered by `entry`.
pub open spec fn plans(
    plan: LaunchPlan,
    cfg: AppConfig,
    cwd: Seq<char>,
    entry: EntryPoint,
) -> bool {
    &&& plan.server is Some <==> serves_assets(entry, cfg.external)
    &&& plan.server matches Some(binding) ==> binding.port == cfg.port && binding.root@
        == dist_root(cfg@.dist, cwd)
    &&& plan.window.title@ == cfg.title@
    &&& plan.window.width == cfg.width
    &&& plan.window.height == cfg.height
    &&& plan.window.url@ == window_url(cfg.port)
}

/// Plans the start for the configuration `cfg`, the working directory `cwd`
/// and the way the application was entered.
pub fn plan_launch(cfg: &AppConfig, cwd: &str, entry: EntryPoint) -> (out: LaunchPlan)
    ensures
        plans(out, *cfg, cwd@, entry),
{
    let window = plan_window(cfg);
    let starts = match entry {
        EntryPoint::Standalone => true,
        EntryPoint::Embedded => !cfg.external,
    };
    let server = if starts {
        let root = taupy_dist_path(cfg.dist.clone(), cwd);
        Some(ServerBinding::new(root, cfg.port))
    } else {
        None
    };
    LaunchPlan { server, window }
}

/// The server listens on the port that the window loads from. In every plan
/// the address of the window names the configured port; where a server is
/// started it is bound to that same port, and the address it listens on ends
/// in the digits that the window's address ends in.
pub proof fn lemma_one_port(plan: LaunchPlan, cfg: AppConfig, cwd: Seq<char>, entry: EntryPoint)
    requires
        plans(plan, cfg, cwd, entry),
    ensures
        url_port(plan.window.url@) == Some(cfg.port as nat),
        plan.server matches Some(binding) ==> {
            &&& url_port(plan.window.url@) == Some(binding.port as nat)
            &&& listen_address(binding.port).skip("0.0.0.0:"@.len() as int)
                == plan.window.url@.skip("http://localhost:"@.len() as int)
        },
{
    lemma_url_names_port(cfg.port);
    let digits = crate::decimal::decimal_text(cfg.port as nat);
    assert(listen_address(cfg.port).skip("0.0.0.0:"@.len() as int) == digits);
    assert(window_url(cfg.port).skip("http://localhost:"@.len() as int) == digits);
}

/// An override is the root as it is, whatever the working directory; without
/// one the root is the working directory, a separator and `dist`, or `dist`
/// alone where the working directory is given as the empty text.
pub proof fn lemma_dist_root(custom: Option<Seq<char>>, cwd: Seq<char>)
    ensures
        custom matches Some(path) ==> dist_root(custom, cwd) == path,
        custom is None && cwd.len() > 0 ==> dist_root(custom, cwd) == cwd + "/dist"@,
        custom is None && cwd.len() == 0 ==> dist_root(custom, cwd) == "dist"@,
{
    reveal_strlit("dist");
    reveal_strlit("/dist");
    assert(seq!['/'] + "dist"@ =~= "/dist"@);
    assert(cwd + seq!['/'] + "dist"@ =~= cwd + (seq!['/'] + "dist"@));
}

} // verus!
