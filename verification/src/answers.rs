//! What the single operations of the shell answer, said of the calls
//! themselves.

use vstd::prelude::*;
use crate::engine::{
    DEBUG_LOG_FILE, POLL_PAUSE_MILLIS, PROBE_PAUSE_MILLIS, PROBE_TIMEOUT_MILLIS,
    READY_TIMEOUT_SECS,
};
use crate::local_url::{
    announces, decimal_reads_back, digits_value, extract_local_url, first_at, is_digit,
    leading_digits, local_url, occurs_at, port_at_head,
};
use crate::menu::{on_menu_event, MenuAction};
use crate::plan::{
    engine_command, node_program, resolve_node, resolve_plan, EnginePlan, NODE_BIN_VAR,
};
use crate::process::{
    kill_tree, make_pnpm_command, open_external, open_in_browser, pick_free_port, CommandSpec,
    Platform, PortOutcome, ProcessOutcome, WorkDir,
};
use crate::settings::{
    load, save, set_engine_dir, SaveOutcome, Settings, StoredSettings, SETTINGS_FILE,
};
use crate::setup::{
    run_setup, run_setup_stage, stage_started_line, SetupNext, SetupProgress, SetupStage,
    SetupStep, StageOutcome,
};
use crate::source::{
    dev_candidates, engine_dir, find_dev_checkout, is_checkout, probe_is_dir, probe_path,
    setup_needed, some_checkout, Base, Candidate, Checkout, CheckoutFacts, EngineDir, Probe,
    CHECKOUT_NAME, ENGINE_DIR_VAR,
};
use crate::state::{EVENT_LOG, EVENT_SETUP, EVENT_STATE};
use crate::text::{
    decimal, decimal_string, is_blank, is_white_space, keep_non_blank, opt_text,
    signed_decimal_string, texts,
};
use crate::webview::{
    navigate_to, navigation_report, resolve_splash_url, url_serialization, NavigateOrder,
    NavigateOutcome,
};

verus! {

/// A run of digits reads as in everyday arithmetic: a digit that is written
/// behind a number makes it ten times as large and adds itself.
pub proof fn digits_read_from_the_left(s: Seq<char>, c: char)
    requires
        '0' <= c <= '9',
    ensures
        digits_value(Seq::empty()) == 0,
        digits_value(s.push(c)) == 10 * digits_value(s) + (c as nat - 48),
{
    assert(s.push(c).drop_last() =~= s);
}

/// `s` is the numeral of `n`: decimal digits without a leading zero, which
/// read as `n`.
pub open spec fn is_numeral_of(s: Seq<char>, n: nat) -> bool {
    &&& s.len() > 0
    &&& forall|i: int| 0 <= i < s.len() ==> '0' <= #[trigger] s[i] <= '9'
    &&& s[0] == '0' ==> s.len() == 1
    &&& digits_value(s) == n
}

proof fn numerals_have_no_leading_zero(n: nat)
    ensures
        decimal(n)[0] == '0' ==> decimal(n).len() == 1 && n == 0,
    decreases n,
{
    if n >= 10 {
        numerals_have_no_leading_zero(n / 10);
        decimal_reads_back(n / 10);
    }
}

pub proof fn decimal_is_a_numeral(n: nat)
    ensures
        is_numeral_of(decimal(n), n),
{
    decimal_reads_back(n);
    numerals_have_no_leading_zero(n);
    assert forall|i: int| 0 <= i < decimal(n).len() implies '0' <= #[trigger] decimal(
        n,
    )[i] <= '9' by {
        assert(is_digit(decimal(n)[i]));
    }
}

/// A number is written as its numeral, and a negative one as that of its
/// magnitude behind a minus sign.
pub proof fn numbers_are_written_in_decimal(n: u64, i: i32, unsigned: String, signed: String)
    requires
        call_ensures(decimal_string, (n,), unsigned),
        call_ensures(signed_decimal_string, (i,), signed),
    ensures
        is_numeral_of(unsigned@, n as nat),
        i >= 0 ==> is_numeral_of(signed@, i as nat),
        i < 0 ==> signed@.len() > 1 && signed@[0] == '-' && is_numeral_of(
            signed@.skip(1),
            (-i) as nat,
        ),
{
    decimal_is_a_numeral(n as nat);
    decimal_is_a_numeral(if i < 0 {
        (-i) as nat
    } else {
        i as nat
    });
    if i < 0 {
        reveal_strlit("-");
        assert(signed@.skip(1) =~= decimal((-i) as nat));
    }
}

/// The list of texts of a list of strings has the text of each, in its place.
pub proof fn texts_are_those_of_the_strings(v: Seq<String>, s: String)
    ensures
        texts(v).len() == v.len(),
        forall|i: int| 0 <= i < v.len() ==> #[trigger] texts(v)[i] == v[i]@,
        opt_text(Some(s)) == Some(s@),
        opt_text(None) is None,
{
}

proof fn code_point_is_the_character(c: char)
    ensures
        c as u32 as int == c as int,
{
}

/// Blank is what holds none but the characters that Unicode counts as white
/// space.
pub proof fn blank_is_white_space_alone(s: &str, b: bool)
    requires
        call_ensures(is_blank, (s,), b),
    ensures
        b <==> forall|i: int|
            0 <= i < s@.len() ==> {
                let c = #[trigger] s@[i];
                ||| c == ' ' || c == '\t' || c == '\n' || c == '\u{b}' || c == '\u{c}' || c == '\r'
                ||| c == '\u{85}' || c == '\u{a0}' || c == '\u{1680}'
                ||| '\u{2000}' <= c <= '\u{200a}'
                ||| c == '\u{2028}' || c == '\u{2029}' || c == '\u{202f}' || c == '\u{205f}'
                ||| c == '\u{3000}'
            },
{
    if b {
        assert forall|i: int| 0 <= i < s@.len() implies {
            let c = #[trigger] s@[i];
            ||| c == ' ' || c == '\t' || c == '\n' || c == '\u{b}' || c == '\u{c}' || c == '\r'
            ||| c == '\u{85}' || c == '\u{a0}' || c == '\u{1680}'
            ||| '\u{2000}' <= c <= '\u{200a}'
            ||| c == '\u{2028}' || c == '\u{2029}' || c == '\u{202f}' || c == '\u{205f}'
            ||| c == '\u{3000}'
        } by {
            code_point_is_the_character(s@[i]);
            assert(is_white_space(s@[i]));
        }
    }
}

/// A name is kept as it is unless it is blank.
pub proof fn blank_names_are_dropped(
    text: &str,
    name: String,
    blank: bool,
    kept: Option<String>,
    none: Option<String>,
)
    requires
        text@ == name@,
        call_ensures(is_blank, (text,), blank),
        call_ensures(keep_non_blank, (Some(name),), kept),
        call_ensures(keep_non_blank, (None,), none),
    ensures
        blank ==> kept is None,
        !blank ==> kept == Some(name),
        none is None,
{
}

/// The address of an engine is that of the loopback interface, and ends in the
/// numeral of the engine's port.
pub proof fn address_names_the_port(port: u16, url: String)
    requires
        call_ensures(local_url, (port,), url),
    ensures
        url@.len() > 17,
        url@.take(17) == "http://127.0.0.1:"@,
        is_numeral_of(url@.skip(17), port as nat),
{
    reveal_strlit("http://127.0.0.1:");
    decimal_is_a_numeral(port as nat);
    assert(url@.take(17) =~= "http://127.0.0.1:"@);
    assert(url@.skip(17) =~= decimal(port as nat));
}

/// In `line`, the first address on the loopback interface stands at `at`, the
/// digits behind it end at `end`, and they read as `port`.
pub open spec fn first_address_is(line: Seq<char>, at: int, end: int, port: u16) -> bool {
    &&& 0 <= at && at + 17 < end <= line.len()
    &&& line.subrange(at, at + 17) == "http://127.0.0.1:"@
    &&& forall|j: int|
        0 <= j < at ==> #[trigger] line.subrange(j, j + 17) != "http://127.0.0.1:"@
    &&& forall|j: int| at + 17 <= j < end ==> '0' <= #[trigger] line[j] <= '9'
    &&& end == line.len() || !('0' <= line[end] <= '9')
    &&& digits_value(line.subrange(at + 17, end)) == port
}

proof fn digits_end_where_the_next_character_is_none(s: Seq<char>) -> (n: int)
    ensures
        0 <= n <= s.len(),
        leading_digits(s) == s.take(n),
        forall|i: int| 0 <= i < n ==> '0' <= #[trigger] s[i] <= '9',
        n == s.len() || !('0' <= s[n] <= '9'),
    decreases s.len(),
{
    if s.len() == 0 || !is_digit(s[0]) {
        assert(s.take(0) =~= Seq::empty());
        0
    } else {
        let n = digits_end_where_the_next_character_is_none(s.skip(1));
        assert(s.take(n + 1) =~= seq![s[0]] + s.skip(1).take(n));
        assert forall|i: int| 0 <= i < n + 1 implies '0' <= #[trigger] s[i] <= '9' by {
            if i > 0 {
                assert(s[i] == s.skip(1)[i - 1]);
            }
        }
        n + 1
    }
}

/// A line announces a port exactly when the first loopback address in it is
/// one on that port. What is read out of it is the address of that port.
pub proof fn announcement_is_the_first_address(line: &str, port: u16, url: Option<String>)
    requires
        call_ensures(extract_local_url, (line, port), url),
    ensures
        url is Some <==> exists|at: int, end: int| #[trigger]
            first_address_is(line@, at, end, port),
        url matches Some(u) ==> {
            &&& u@.len() > 17
            &&& u@.take(17) == "http://127.0.0.1:"@
            &&& is_numeral_of(u@.skip(17), port as nat)
        },
{
    reveal_strlit("http://127.0.0.1:");
    let prefix = "http://127.0.0.1:"@;
    let s = line@;
    if url is Some {
        let at = choose|i: int| #[trigger]
            first_at(s, prefix, i) && port_at_head(s.skip(i + prefix.len())) == Some(port as nat);
        assert(occurs_at(s, prefix, at));
        let n = digits_end_where_the_next_character_is_none(s.skip(at + 17));
        let end = at + 17 + n;
        assert(s.skip(at + 17).take(n) =~= s.subrange(at + 17, end));
        assert forall|j: int| 0 <= j < at implies #[trigger] s.subrange(j, j + 17) != prefix by {
            assert(!occurs_at(s, prefix, j));
        }
        assert forall|j: int| at + 17 <= j < end implies '0' <= #[trigger] s[j] <= '9' by {
            assert(s[j] == s.skip(at + 17)[j - at - 17]);
        }
        assert(first_address_is(s, at, end, port));
        let u = url->0@;
        decimal_is_a_numeral(port as nat);
        assert(u.take(17) =~= prefix);
        assert(u.skip(17) =~= decimal(port as nat));
    }
    if exists|at: int, end: int| #[trigger] first_address_is(s, at, end, port) {
        let (at, end) = choose|at: int, end: int| #[trigger] first_address_is(s, at, end, port);
        assert(occurs_at(s, prefix, at));
        assert forall|j: int| j < at implies !occurs_at(s, prefix, j) by {
            if 0 <= j {
                assert(s.subrange(j, j + 17) != prefix);
            }
        }
        assert(first_at(s, prefix, at));
        let tail = s.skip(at + 17);
        let n = digits_end_where_the_next_character_is_none(tail);
        assert(n == end - at - 17) by {
            if n < end - at - 17 {
                assert(tail[n] == s[at + 17 + n]);
            }
            if n > end - at - 17 {
                assert(tail[end - at - 17] == s[end]);
            }
        }
        assert(tail.take(n) =~= s.subrange(at + 17, end));
        assert(announces(s, port as nat));
    }
}

/// However the engine is run, it is told to serve its web UI on the loopback
/// interface, on the very port that was reserved.
pub proof fn plan_serves_on_the_reserved_port(
    port: u16,
    node: Result<String, String>,
    checkout: Option<Checkout>,
    config_dir: Result<String, String>,
    platform: Platform,
    plan: EnginePlan,
)
    requires
        call_ensures(
            resolve_plan,
            (port, node, checkout, config_dir, platform),
            Ok::<EnginePlan, String>(plan),
        ),
    ensures
        ({
            let n = plan.args@.len() as int;
            &&& n > 5
            &&& plan.args@[n - 5]@ == "web"@
            &&& plan.args@[n - 4]@ == "--host"@
            &&& plan.args@[n - 3]@ == "127.0.0.1"@
            &&& plan.args@[n - 2]@ == "--port"@
            &&& is_numeral_of(plan.args@[n - 1]@, port as nat)
        }),
{
    let n = plan.args@.len() as int;
    decimal_is_a_numeral(port as nat);
    assert(texts(plan.args@).len() == n);
    assert(texts(plan.args@)[n - 5] == "web"@);
    assert(texts(plan.args@)[n - 4] == "--host"@);
    assert(texts(plan.args@)[n - 3] == "127.0.0.1"@);
    assert(texts(plan.args@)[n - 2] == "--port"@);
    assert(texts(plan.args@)[n - 1] == decimal(port as nat));
}

/// A chosen directory is run in place, by its built entry point and with the
/// node binary that was found.
pub proof fn checkout_is_run_in_place(
    port: u16,
    node: Result<String, String>,
    checkout: Checkout,
    config_dir: Result<String, String>,
    platform: Platform,
    plan: EnginePlan,
)
    requires
        call_ensures(
            resolve_plan,
            (port, node, Some(checkout), config_dir, platform),
            Ok::<EnginePlan, String>(plan),
        ),
    ensures
        node matches Ok(n) && plan.program@ == n@,
        plan.args@.len() == 6,
        plan.args@[0]@ == checkout.cli_bin@,
        plan.dir == WorkDir::EngineDir,
        plan.cwd@ == checkout.dir@,
        plan.mode@ == "checkout: "@ + checkout.dir@,
{
    assert(texts(plan.args@).len() == 6);
    assert(texts(plan.args@)[0] == checkout.cli_bin@);
}

/// Without a chosen directory the published package is run through npx, in
/// the app config directory. On Windows, and only there, the command
/// interpreter is what starts npx.
pub proof fn package_is_run_through_npx(
    port: u16,
    node: Result<String, String>,
    config_dir: Result<String, String>,
    platform: Platform,
    plan: EnginePlan,
)
    requires
        call_ensures(
            resolve_plan,
            (port, node, None, config_dir, platform),
            Ok::<EnginePlan, String>(plan),
        ),
    ensures
        platform == Platform::Windows ==> {
            &&& plan.program@ == "cmd"@
            &&& plan.args@.len() == 9
            &&& plan.args@[0]@ == "/C"@
            &&& plan.args@[1]@ == "npx"@
            &&& plan.args@[2]@ == "--yes"@
            &&& plan.args@[3]@ == "@deepseek-ai/dsh"@
        },
        platform != Platform::Windows ==> {
            &&& plan.program@ == "npx"@
            &&& plan.args@.len() == 7
            &&& plan.args@[0]@ == "--yes"@
            &&& plan.args@[1]@ == "@deepseek-ai/dsh"@
        },
        plan.dir == WorkDir::ConfigDir,
        config_dir matches Ok(d) && plan.cwd@ == d@,
        plan.mode@ == "npx @deepseek-ai/dsh (published package)"@,
{
    let args = texts(plan.args@);
    assert(args.len() == plan.args@.len());
    if platform == Platform::Windows {
        assert(args[0] == "/C"@ && args[1] == "npx"@ && args[2] == "--yes"@);
        assert(args[3] == "@deepseek-ai/dsh"@);
    } else {
        assert(args[0] == "--yes"@ && args[1] == "@deepseek-ai/dsh"@);
    }
}

/// There is a plan exactly when node works, and the chosen directory holds the
/// sources, is installed and is built, or there is none and the app config
/// directory is known. Otherwise the first of these that fails is the reason.
pub proof fn lack_of_a_plan_has_its_reason(
    port: u16,
    node: Result<String, String>,
    checkout: Option<Checkout>,
    config_dir: Result<String, String>,
    platform: Platform,
    plan: Result<EnginePlan, String>,
)
    requires
        call_ensures(resolve_plan, (port, node, checkout, config_dir, platform), plan),
    ensures
        plan is Ok <==> node is Ok && match checkout {
            Some(c) => c.facts.cli_source && c.facts.modules && c.facts.cli_build,
            None => config_dir is Ok,
        },
        plan matches Err(e) ==> match (node, checkout, config_dir) {
            (Err(reason), _, _) => e@ == reason@,
            (Ok(_), Some(c), _) => e@ == if c.facts.cli_source {
                "The engine checkout at "@ + c.dir@
                    + " is not ready: it needs `pnpm install` and `pnpm run build`. Run the setup action to prepare it."@
            } else {
                c.dir@ + " is not a deepseek-harness checkout (missing apps/cli/src/bin.ts)"@
            },
            (Ok(_), None, Err(reason)) => e@ == "cannot resolve app config dir: "@ + reason@,
            (Ok(_), None, Ok(_)) => false,
        },
{
}

/// The engine process is what the plan says, in the directory that it says.
/// The shell watches it, and can end it with all that it starts.
pub proof fn engine_process_is_the_planned_one(plan: EnginePlan, command: CommandSpec)
    requires
        call_ensures(engine_command, (&plan,), command),
    ensures
        command.program@ == plan.program@,
        command.args@.len() == plan.args@.len(),
        forall|i: int| 0 <= i < plan.args@.len() ==> #[trigger] command.args@[i]@ == plan.args@[i]@,
        command.dir == plan.dir,
        command.watched && command.leads_group,
{
    assert(texts(command.args@) == texts(plan.args@));
    assert(texts(command.args@).len() == texts(plan.args@).len());
    assert forall|i: int| 0 <= i < plan.args@.len() implies #[trigger] command.args@[i]@
        == plan.args@[i]@ by {
        assert(texts(command.args@)[i] == texts(plan.args@)[i]);
    }
}

/// The node binary in the environment is tried when its name is not blank, and
/// `node` otherwise. It is used exactly when it ran, and the reason why it
/// cannot be used names it.
pub proof fn node_is_the_one_that_ran(
    environment: Option<String>,
    named: Option<String>,
    program: String,
    outcome: ProcessOutcome,
    node: Result<String, String>,
)
    requires
        call_ensures(keep_non_blank, (environment,), named),
        call_ensures(node_program, (environment,), program),
        call_ensures(resolve_node, (program, outcome), node),
    ensures
        program@ == match named {
            Some(name) => name@,
            None => "node"@,
        },
        match outcome {
            ProcessOutcome::Succeeded => node matches Ok(n) && n@ == program@,
            ProcessOutcome::Failed => node matches Err(e) && e@ == "node check failed for "@
                + program@,
            ProcessOutcome::NotStarted(reason) => node matches Err(e) && e@
                == "Node.js not found ("@ + program@ + ": "@ + reason@
                + "). Install Node.js 22+ and ensure it is on PATH, or set DSH_NODE_BIN."@,
        },
{
}

/// What is looked for in an engine directory, and where: the source of the
/// command line entry point, the installed dependencies, and the built entry
/// point. Only the dependencies are a directory.
pub proof fn engine_directory_is_probed_at(probe: Probe, path: Vec<String>, dir: bool)
    requires
        call_ensures(probe_path, (probe,), path),
        call_ensures(probe_is_dir, (probe,), dir),
    ensures
        match probe {
            Probe::CliSource => !dir && path@.len() == 4 && path@[0]@ == "apps"@ && path@[1]@
                == "cli"@ && path@[2]@ == "src"@ && path@[3]@ == "bin.ts"@,
            Probe::Modules => dir && path@.len() == 1 && path@[0]@ == "node_modules"@,
            Probe::CliBuild => !dir && path@.len() == 4 && path@[0]@ == "apps"@ && path@[1]@
                == "cli"@ && path@[2]@ == "lib"@ && path@[3]@ == "bin.js"@,
        },
{
    let t = texts(path@);
    assert(t.len() == path@.len());
    match probe {
        Probe::CliSource => {
            assert(t[0] == "apps"@ && t[1] == "cli"@ && t[2] == "src"@ && t[3] == "bin.ts"@);
        },
        Probe::Modules => {
            assert(t[0] == "node_modules"@);
        },
        Probe::CliBuild => {
            assert(t[0] == "apps"@ && t[1] == "cli"@ && t[2] == "lib"@ && t[3] == "bin.js"@);
        },
    }
}

/// A checkout is where the source of the entry point is, whatever else is
/// there. The setup is offered for a checkout that is not built, and for
/// nothing else.
pub proof fn setup_is_offered_for_unbuilt_checkouts(
    facts: CheckoutFacts,
    is: bool,
    checkout: Option<Checkout>,
    offered: bool,
)
    requires
        call_ensures(is_checkout, (&facts,), is),
        call_ensures(setup_needed, (&checkout,), offered),
    ensures
        is == facts.cli_source,
        offered <==> (checkout matches Some(c) && c.facts.cli_source && !c.facts.cli_build),
{
}

/// A checkout next to the app is looked for in the working directory and one
/// level above it, then beside the app's binary and up to three levels above
/// that. A directory that is not known is left out, and no other place is
/// looked at.
pub proof fn checkout_is_looked_for_next_to_the_app(
    working_dir: bool,
    binary_dir: bool,
    places: Vec<Candidate>,
)
    requires
        call_ensures(dev_candidates, (working_dir, binary_dir), places),
    ensures
        ({
            let first: int = if working_dir {
                2
            } else {
                0
            };
            let second: int = if binary_dir {
                4
            } else {
                0
            };
            &&& places@.len() == first + second
            &&& forall|i: int|
                0 <= i < first ==> (#[trigger] places@[i]).base == Base::WorkingDir
                    && places@[i].levels_up == i
            &&& forall|i: int|
                first <= i < first + second ==> (#[trigger] places@[i]).base == Base::BinaryDir
                    && places@[i].levels_up == i - first
        }),
{
}

/// The checkout that is found is at the first place that holds the sources,
/// and one is found if any place does.
pub proof fn nearest_checkout_is_found(found: Vec<CheckoutFacts>, r: Option<usize>)
    requires
        call_ensures(find_dev_checkout, (&found,), r),
    ensures
        r is Some <==> exists|i: int| 0 <= i < found@.len() && (#[trigger] found@[i]).cli_source,
        r matches Some(i) ==> {
            &&& i < found@.len()
            &&& found@[i as int].cli_source
            &&& forall|j: int| 0 <= j < i ==> !(#[trigger] found@[j]).cli_source
        },
{
    match r {
        Some(i) => {
            assert(found@[i as int].cli_source);
        },
        None => {
            assert(!some_checkout(found@));
        },
    }
}

/// The engine directory is the saved one, or else the one in the environment,
/// or else the very place next to the app that was found. A blank name is no
/// name. Without any of the three there is none.
pub proof fn engine_directory_is_the_first_that_is_named(
    settings: Settings,
    environment: Option<String>,
    nearby: Option<usize>,
    saved: Option<String>,
    inherited: Option<String>,
    dir: Option<EngineDir>,
)
    requires
        call_ensures(keep_non_blank, (settings.engine_dir,), saved),
        call_ensures(keep_non_blank, (environment,), inherited),
        call_ensures(engine_dir, (&settings, environment, nearby), dir),
    ensures
        match (saved, inherited, nearby) {
            (Some(s), _, _) => dir matches Some(EngineDir::Saved(d)) && d@ == s@,
            (None, Some(e), _) => dir matches Some(EngineDir::Environment(d)) && d@ == e@,
            (None, None, Some(i)) => dir matches Some(EngineDir::Nearby(j)) && j == i,
            (None, None, None) => dir is None,
        },
{
}

/// What was found next to the app is used when no directory is named, and
/// then it is a checkout that was looked at.
pub proof fn nearby_directory_is_one_that_was_found(
    found: Vec<CheckoutFacts>,
    nearby: Option<usize>,
    settings: Settings,
    dir: Option<EngineDir>,
)
    requires
        call_ensures(find_dev_checkout, (&found,), nearby),
        settings.engine_dir is None,
        call_ensures(engine_dir, (&settings, None, nearby), dir),
    ensures
        dir is Some <==> exists|i: int| 0 <= i < found@.len() && (#[trigger] found@[i]).cli_source,
        dir matches Some(d) ==> (d matches EngineDir::Nearby(i) && i < found@.len()
            && found@[i as int].cli_source),
{
    nearest_checkout_is_found(found, nearby);
}

/// pnpm gets exactly the words that it is given, in the given directory. On
/// Windows, and only there, the command interpreter is what starts it.
pub proof fn pnpm_gets_its_words(
    platform: Platform,
    dir: WorkDir,
    words: Vec<String>,
    command: CommandSpec,
)
    requires
        call_ensures(make_pnpm_command, (platform, dir, words), command),
    ensures
        platform != Platform::Windows ==> command.program@ == "pnpm"@ && texts(command.args@)
            == texts(words@),
        platform == Platform::Windows ==> command.program@ == "cmd"@ && texts(command.args@)
            == seq!["/C"@, "pnpm"@] + texts(words@),
        command.dir == dir,
        command.watched && command.leads_group,
{
}

/// Ending a process ends its tree: on Windows by the tree of its number, and
/// elsewhere by the group that it leads, whose name is the negative of its
/// number.
pub proof fn process_tree_is_ended(platform: Platform, pid: u32, command: CommandSpec)
    requires
        call_ensures(kill_tree, (platform, pid), command),
    ensures
        platform == Platform::Windows ==> {
            &&& command.program@ == "taskkill"@
            &&& command.args@.len() == 4
            &&& command.args@[0]@ == "/PID"@
            &&& is_numeral_of(command.args@[1]@, pid as nat)
            &&& command.args@[2]@ == "/T"@
            &&& command.args@[3]@ == "/F"@
        },
        platform != Platform::Windows ==> {
            &&& command.program@ == "kill"@
            &&& command.args@.len() == 3
            &&& command.args@[0]@ == "-TERM"@
            &&& command.args@[1]@ == "--"@
            &&& command.args@[2]@.len() > 1 && command.args@[2]@[0] == '-'
            &&& is_numeral_of(command.args@[2]@.skip(1), pid as nat)
        },
        command.dir == WorkDir::Inherited,
        !command.watched && !command.leads_group,
{
    let args = texts(command.args@);
    assert(args.len() == command.args@.len());
    decimal_is_a_numeral(pid as nat);
    if platform == Platform::Windows {
        assert(args[0] == "/PID"@ && args[1] == decimal(pid as nat));
        assert(args[2] == "/T"@ && args[3] == "/F"@);
    } else {
        reveal_strlit("-");
        assert(args[0] == "-TERM"@ && args[1] == "--"@);
        assert(args[2] == "-"@ + decimal(pid as nat));
        assert(args[2].skip(1) =~= decimal(pid as nat));
    }
}

/// The browser is opened by the command that each system has for it, at the
/// address that was asked for. An attempt that failed is told with its reason.
pub proof fn browser_is_opened_at_the_address(
    platform: Platform,
    url: &str,
    command: CommandSpec,
    outcome: ProcessOutcome,
    r: Result<(), String>,
)
    requires
        call_ensures(open_in_browser, (platform, url), command),
        call_ensures(open_external, (url, outcome), r),
    ensures
        match platform {
            Platform::Windows => command.program@ == "cmd"@ && texts(command.args@) == seq![
                "/C"@,
                "start"@,
                ""@,
                url@,
            ],
            Platform::MacOs => command.program@ == "open"@ && texts(command.args@) == seq![url@],
            Platform::Other => command.program@ == "xdg-open"@ && texts(command.args@)
                == seq![url@],
        },
        command.dir == WorkDir::Inherited,
        !command.watched && !command.leads_group,
        match outcome {
            ProcessOutcome::Succeeded => r is Ok,
            ProcessOutcome::Failed => r matches Err(e) && e@ == "failed to open "@ + url@,
            ProcessOutcome::NotStarted(reason) => r matches Err(e) && e@
                == "cannot open browser: "@ + reason@,
        },
{
}

/// The port is the one that was bound. Without one the reason is told.
pub proof fn port_is_the_bound_one(outcome: PortOutcome, port: Result<u16, String>)
    requires
        call_ensures(pick_free_port, (outcome,), port),
    ensures
        match outcome {
            PortOutcome::Bound(p) => port matches Ok(q) && q == p,
            PortOutcome::NotBound(reason) => port matches Err(e) && e@
                == "cannot reserve a port: "@ + reason@,
            PortOutcome::NoAddress(reason) => port matches Err(e) && e@
                == "cannot read reserved port: "@ + reason@,
        },
{
}

/// `next` runs `stage` in the engine directory, by pnpm and with `words`. On
/// Windows, and only there, the command interpreter is what starts pnpm.
pub open spec fn runs_pnpm(
    next: SetupNext,
    platform: Platform,
    stage: SetupStage,
    words: Seq<Seq<char>>,
) -> bool {
    next matches SetupNext::RunStage { stage: s, command } && {
        &&& s == stage
        &&& platform == Platform::Windows ==> command.program@ == "cmd"@ && texts(command.args@)
            == seq!["/C"@, "pnpm"@] + words
        &&& platform != Platform::Windows ==> command.program@ == "pnpm"@ && texts(command.args@)
            == words
        &&& command.dir == WorkDir::EngineDir
        &&& command.watched && command.leads_group
    }
}

/// The setup installs first, builds once that succeeded, and succeeds once
/// the build did. Anything else ends it without success.
pub proof fn setup_installs_then_builds(
    platform: Platform,
    progress: SetupProgress,
    step: SetupStep,
)
    requires
        call_ensures(run_setup, (platform, progress), step),
    ensures
        match progress {
            SetupProgress::Begun => runs_pnpm(
                step.next,
                platform,
                SetupStage::Install,
                seq!["install"@, "--no-frozen-lockfile"@],
            ),
            SetupProgress::StageOver { stage: SetupStage::Install, result: Ok(true) } => runs_pnpm(
                step.next,
                platform,
                SetupStage::Build,
                seq!["run"@, "build"@],
            ),
            SetupProgress::StageOver { stage: SetupStage::Build, result: Ok(true) } => step.next
                matches SetupNext::Finish { success } && success,
            SetupProgress::StageOver { .. } => step.next matches SetupNext::Finish { success }
                && !success,
        },
{
}

/// The shell is told of each stage as it begins, of the end of a setup that
/// succeeded, and of the reason, under the name of its stage, why one did not.
pub proof fn setup_is_told_stage_by_stage(
    platform: Platform,
    progress: SetupProgress,
    step: SetupStep,
)
    requires
        call_ensures(run_setup, (platform, progress), step),
    ensures
        step.event.line is None,
        match progress {
            SetupProgress::Begun => step.event.stage@ == "install"@ && !step.event.done
                && step.event.error is None,
            SetupProgress::StageOver { stage: SetupStage::Install, result: Ok(true) } => {
                step.event.stage@ == "build"@ && !step.event.done && step.event.error is None
            },
            SetupProgress::StageOver { stage: SetupStage::Build, result: Ok(true) } => {
                step.event.stage@ == "done"@ && step.event.done && step.event.error is None
            },
            SetupProgress::StageOver { stage: SetupStage::Install, result: Ok(false) } => {
                &&& step.event.stage@ == "install"@ && !step.event.done
                &&& step.event.error matches Some(e) && e@ == "pnpm "@ + "install"@
                    + " failed; see the log for details"@
            },
            SetupProgress::StageOver { stage: SetupStage::Build, result: Ok(false) } => {
                &&& step.event.stage@ == "build"@ && !step.event.done
                &&& step.event.error matches Some(e) && e@ == "pnpm "@ + "build"@
                    + " failed; see the log for details"@
            },
            SetupProgress::StageOver { stage, result: Err(reason) } => {
                &&& stage == SetupStage::Install ==> step.event.stage@ == "install"@
                &&& stage == SetupStage::Build ==> step.event.stage@ == "build"@
                &&& !step.event.done
                &&& step.event.error matches Some(e) && e@ == reason@
            },
        },
{
}

/// A stage succeeds exactly as its process did. One that could not be carried
/// through is told with its reason. The log tells of the process by its number.
pub proof fn stage_fares_as_its_process(
    stage: SetupStage,
    outcome: StageOutcome,
    r: Result<bool, String>,
    pid: u32,
    line: String,
)
    requires
        call_ensures(run_setup_stage, (stage, outcome), r),
        call_ensures(stage_started_line, (stage, pid), line),
    ensures
        ({
            let name = if stage == SetupStage::Install {
                "install"@
            } else {
                "build"@
            };
            &&& match outcome {
                StageOutcome::Exited { success } => r matches Ok(b) && b == success,
                StageOutcome::NotStarted(reason) => r matches Err(e) && e@
                    == "failed to start pnpm "@ + name + ": "@ + reason@,
                StageOutcome::NoStdout => r matches Err(e) && e@ == "pnpm stdout unavailable"@,
                StageOutcome::NoStderr => r matches Err(e) && e@ == "pnpm stderr unavailable"@,
                StageOutcome::Disappeared => r matches Err(e) && e@ == "pnpm child disappeared"@,
                StageOutcome::NotWaitedFor(reason) => r matches Err(e) && e@ == "pnpm "@ + name
                    + " wait failed: "@ + reason@,
            }
            &&& exists|number: Seq<char>| #[trigger]
                is_numeral_of(number, pid as nat) && line@ == "[dsh-desktop] pnpm "@ + name
                    + " started (pid "@ + number + ")"@
        }),
{
    decimal_is_a_numeral(pid as nat);
}

/// Stored settings are used as they are, and the default ones name no engine
/// directory.
pub proof fn stored_settings_are_used(stored: StoredSettings, settings: Settings)
    requires
        call_ensures(load, (stored,), settings),
    ensures
        match stored {
            StoredSettings::Parsed(s) => opt_text(settings.engine_dir) == opt_text(s.engine_dir),
            StoredSettings::NoConfigDir | StoredSettings::Unreadable
            | StoredSettings::Malformed => settings.engine_dir is None,
        },
{
}

/// Settings that were saved are told as saved, and each failure with the step
/// that failed and its reason.
pub proof fn failed_save_is_told_with_its_step(outcome: SaveOutcome, r: Result<(), String>)
    requires
        call_ensures(save, (outcome,), r),
    ensures
        match outcome {
            SaveOutcome::Saved => r is Ok,
            SaveOutcome::NoConfigDir(reason) => r matches Err(e) && e@
                == "cannot resolve app config dir: "@ + reason@,
            SaveOutcome::DirNotCreated(reason) => r matches Err(e) && e@
                == "cannot create config dir: "@ + reason@,
            SaveOutcome::NotSerialized(reason) => r matches Err(e) && e@
                == "cannot serialize settings: "@ + reason@,
            SaveOutcome::NotWritten(reason) => r matches Err(e) && e@
                == "cannot write settings: "@ + reason@,
        },
{
}

/// A directory that is set is the one that the engine is then taken from,
/// whatever else is named. Setting a blank one, or none, leaves the choice to
/// the environment and to what stands next to the app.
pub proof fn set_directory_is_the_engine_directory(
    current: Settings,
    dir: Option<String>,
    kept: Option<String>,
    updated: Settings,
    environment: Option<String>,
    nearby: Option<usize>,
    chosen: Option<EngineDir>,
)
    requires
        call_ensures(keep_non_blank, (dir,), kept),
        call_ensures(set_engine_dir, (current, dir), updated),
        call_ensures(engine_dir, (&updated, environment, nearby), chosen),
    ensures
        opt_text(updated.engine_dir) == opt_text(kept),
        kept matches Some(k) ==> (chosen matches Some(EngineDir::Saved(d)) && d@ == k@),
        kept is None ==> !(chosen matches Some(EngineDir::Saved(_))),
{
}

/// The window is sent to the address that it is given, as a URL. An engine's
/// own address is one on every port; the port of plain HTTP is left out of it,
/// as it always is.
pub proof fn engine_address_is_shown(port: u16, url: String, given: &str, order: NavigateOrder)
    requires
        call_ensures(local_url, (port,), url),
        given@ == url@,
        call_ensures(navigate_to, (given,), order),
    ensures
        order.target matches Some(t) && t@ == if port == 80 {
            "http://127.0.0.1/"@
        } else {
            url@ + "/"@
        },
{
}

/// The window is sent nowhere but to the URL that the given text stands for.
pub proof fn window_goes_where_it_is_sent(url: &str, order: NavigateOrder)
    requires
        call_ensures(navigate_to, (url,), order),
    ensures
        order.debug@ == "[dsh-desktop] navigating webview to "@ + url@,
        opt_text(order.target) == url_serialization(url@),
{
}

/// The debug log tells what came of a navigation.
pub proof fn navigation_is_reported(outcome: NavigateOutcome, debug: String)
    requires
        call_ensures(navigation_report, (outcome,), debug),
    ensures
        match outcome {
            NavigateOutcome::Loaded => debug@ == "[dsh-desktop] webview navigate ok"@,
            NavigateOutcome::Refused(e) => debug@ == "[dsh-desktop] webview navigate error: "@
                + e@,
            NavigateOutcome::NoWindow => debug@
                == "[dsh-desktop] main window not found for navigation"@,
        },
{
}

/// The splash page is the one that the window showed, unless it showed none
/// yet. Then it is the dev server's in a dev build, and in a release build the
/// origin of the embedded assets, which depends on the system and is always
/// known.
pub proof fn splash_page_is_known(
    captured: Option<String>,
    dev_build: bool,
    dev_url: Option<String>,
    platform: Platform,
    splash: Option<String>,
)
    requires
        call_ensures(resolve_splash_url, (captured, dev_build, dev_url, platform), splash),
    ensures
        ({
            let shown = captured matches Some(c) && c@ != "about:blank"@;
            &&& shown ==> opt_text(splash) == opt_text(captured)
            &&& !shown && dev_build ==> opt_text(splash) == opt_text(dev_url)
            &&& !shown && !dev_build && platform == Platform::Windows ==> opt_text(splash) == Some(
                "http://tauri.localhost/"@,
            )
            &&& !shown && !dev_build && platform != Platform::Windows ==> opt_text(splash) == Some(
                "tauri://localhost"@,
            )
        }),
{
}

/// Each menu entry asks for what it is named after. The browser is opened at
/// the engine's address, and only when there is one.
pub proof fn menu_entries_do_as_named(id: &str, url: Option<String>, action: MenuAction)
    requires
        call_ensures(on_menu_event, (id, url), action),
    ensures
        id@ == "open-browser"@ ==> match url {
            Some(u) => action matches MenuAction::OpenExternal(a) && a@ == u@,
            None => action is Nothing,
        },
        id@ == "restart-engine"@ ==> action is Restart,
        id@ == "stop-engine"@ ==> action is Stop,
        id@ != "open-browser"@ && id@ != "restart-engine"@ && id@ != "stop-engine"@ ==> action
            is Nothing,
{
}

/// The events, files and variables have the names that others know them by,
/// and the shell waits as long as it says.
pub proof fn names_and_times_are_fixed()
    ensures
        EVENT_STATE@ == "engine://state"@ && EVENT_LOG@ == "engine://log"@ && EVENT_SETUP@
            == "engine://setup"@,
        SETTINGS_FILE@ == "settings.json"@ && DEBUG_LOG_FILE@ == "engine-debug.log"@,
        NODE_BIN_VAR@ == "DSH_NODE_BIN"@ && ENGINE_DIR_VAR@ == "DSH_ENGINE_DIR"@,
        CHECKOUT_NAME@ == "deepseek-harness"@,
        READY_TIMEOUT_SECS == 120,
        PROBE_TIMEOUT_MILLIS == 400 && PROBE_PAUSE_MILLIS == 400,
        POLL_PAUSE_MILLIS == 500,
{
}

} // verus!
