use vstd::prelude::*;
use vstd::string::*;

verus! {

/// Where the welcome-done marker lives, relative to the home directory.
pub const WELCOME_DONE_FILE: &'static str = ".config/rakuos/welcome-done";

/// The home directory used when `HOME` is unset or not valid text.
pub const FALLBACK_HOME: &'static str = "/root";

/// Name of the setup log of the QML window, in the temporary directory.
pub const QML_LOG_FILE: &'static str = "rakuos-welcome-qt.log";

/// Name of the setup log of the message-driven window, in the temporary directory.
pub const WIZARD_LOG_FILE: &'static str = "rakuos-welcome-cosmic.log";

/// The desktop application id shared by the front ends.
pub const APP_ID: &'static str = "org.rakuos.Welcome";

/// Whether a command-line argument asks to show the wizard even after it ran once.
pub open spec fn is_force_arg(arg: Seq<char>) -> bool {
    arg == "--force"@ || arg == "-f"@
}

/// Recognises `--force` and `-f`.
pub fn is_force_flag(arg: &String) -> (r: bool)
    ensures
        r == is_force_arg(arg@),
{
    let long = String::from_str("--force");
    let short = String::from_str("-f");
    *arg == long || *arg == short
}

/// Whether any argument is `--force` or `-f`.
pub fn has_force_flag(args: &Vec<String>) -> (r: bool)
    ensures
        r == exists|i: int| 0 <= i < args@.len() && is_force_arg(#[trigger] args@[i]@),
{
    let mut i: usize = 0;
    while i < args.len()
        invariant
            i <= args@.len(),
            forall|j: int| 0 <= j < i ==> !is_force_arg(#[trigger] args@[j]@),
        decreases args.len() - i,
    {
        if is_force_flag(&args[i]) {
            return true;
        }
        i = i + 1;
    }
    false
}

/// The wizard runs once: it shows when its marker file is absent, or when forced.
pub fn should_show_welcome(done_file_exists: bool, force: bool) -> (r: bool)
    ensures
        r == (!done_file_exists || force),
{
    !done_file_exists || force
}

/// The arguments without the force flags, which the toolkit would reject.
pub open spec fn without_force_flags(args: Seq<String>) -> Seq<String> {
    args.filter(|a: String| !is_force_arg(a@))
}

/// Drops every `--force` and `-f`, keeping the other arguments in order.
pub fn strip_force_flags(args: &Vec<String>) -> (r: Vec<String>)
    ensures
        r@ == without_force_flags(args@),
{
    let mut kept: Vec<String> = Vec::new();
    let mut i: usize = 0;
    while i < args.len()
        invariant
            i <= args@.len(),
            kept@ == without_force_flags(args@.take(i as int)),
        decreases args.len() - i,
    {
        let keep = !is_force_flag(&args[i]);
        if keep {
            kept.push(args[i].clone());
        }
        proof {
            reveal(Seq::filter);
            assert(args@.take(i + 1).drop_last() =~= args@.take(i as int));
            assert(args@.take(i + 1).last() == args@[i as int]);
        }
        i = i + 1;
    }
    proof {
        assert(args@.take(args@.len() as int) =~= args@);
    }
    kept
}

/// No force flag survives stripping, so the toolkit never sees one; every
/// other argument does survive.
pub proof fn stripped_arguments_hold_no_force_flag(args: Seq<String>)
    ensures
        forall|i: int|
            0 <= i < without_force_flags(args).len() ==> !is_force_arg(
                #[trigger] without_force_flags(args)[i]@,
            ),
        forall|i: int|
            0 <= i < args.len() && !is_force_arg(args[i]@) ==> without_force_flags(
                args,
            ).contains(#[trigger] args[i]),
{
    let keep = |a: String| !is_force_arg(a@);
    assert forall|i: int| 0 <= i < without_force_flags(args).len() implies !is_force_arg(
        #[trigger] without_force_flags(args)[i]@,
    ) by {
        args.lemma_filter_pred(keep, i);
    }
    assert forall|i: int| 0 <= i < args.len() && !is_force_arg(args[i]@) implies without_force_flags(
        args,
    ).contains(#[trigger] args[i]) by {
        args.lemma_filter_contains(keep, i);
    }
}

/// `base` joined with the relative path `rel`, with one separator between them.
pub open spec fn join_path(base: Seq<char>, rel: Seq<char>) -> Seq<char> {
    if base.len() == 0 {
        rel
    } else if base.last() == '/' {
        base + rel
    } else {
        base + "/"@ + rel
    }
}

/// `base` with the relative path `rel` appended, as `join_path` says.
fn join_relative(base: String, rel: &str) -> (r: String)
    ensures
        r@ == join_path(base@, rel@),
{
    let mut path = base;
    let n = path.as_str().unicode_len();
    if n == 0 {
        rel.to_owned()
    } else {
        let last = path.as_str().get_char(n - 1);
        if last != '/' {
            path.append("/");
        }
        path.append(rel);
        path
    }
}

/// The marker file that records that the wizard was completed, under `home`
/// (or under the fallback home when there is none).
pub fn done_file(home: Option<String>) -> (r: String)
    ensures
        r@ == join_path(
            match home {
                Some(h) => h@,
                None => FALLBACK_HOME@,
            },
            WELCOME_DONE_FILE@,
        ),
{
    let base = match home {
        Some(h) => h,
        None => String::from_str(FALLBACK_HOME),
    };
    join_relative(base, WELCOME_DONE_FILE)
}

/// The setup log of a window: the file `name` (`QML_LOG_FILE` or
/// `WIZARD_LOG_FILE`) in the temporary directory `temp_dir`.
pub fn log_file_path(temp_dir: String, name: &str) -> (r: String)
    ensures
        r@ == join_path(temp_dir@, name@),
{
    join_relative(temp_dir, name)
}

} // verus!
