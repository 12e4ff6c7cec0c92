use vstd::prelude::*;
use vstd::string::StrSliceExecFns;
use crate::download::text_of;
use crate::text::{trim_text, trimmed};

verus! {

/// The words that `shlex::split` makes of `s`, as a POSIX shell would;
/// `None` when `s` is not well formed (an unclosed quote).
pub uninterp spec fn shell_words(s: Seq<char>) -> Option<Seq<Seq<char>>>;

/// Relies on `shlex::split`: the words of a command line.
#[verifier::external_body]
fn split_command_line(s: &str) -> (r: Option<Vec<String>>)
    ensures
        r matches Some(v) ==> shell_words(s@) == Some(v@.map_values(|w: String| w@)),
        r is None ==> shell_words(s@) is None,
{
    shlex::split(s)
}

/// The index of the first `=` of `s`, -1 when there is none.
pub open spec fn first_equals(s: Seq<char>) -> int
    decreases s.len(),
{
    if s.len() == 0 {
        -1
    } else if first_equals(s.drop_last()) >= 0 {
        first_equals(s.drop_last())
    } else if s.last() == '=' {
        s.len() - 1
    } else {
        -1
    }
}

/// An environment variable entry `KEY=VALUE` as key and value, split at the
/// first `=`; `None` when the entry holds no `=`.
pub fn environment_entry(entry: &str) -> (r: Option<(String, String)>)
    ensures
        r is None <==> first_equals(entry@) < 0,
        r matches Some((k, v)) ==> k@ == entry@.subrange(0, first_equals(entry@))
            && v@ == entry@.subrange(first_equals(entry@) + 1, entry@.len() as int),
{
    let n = entry.unicode_len();
    let mut i: usize = 0;
    while i < n
        invariant
            n == entry@.len(),
            i <= n,
            first_equals(entry@.take(i as int)) < 0,
        decreases n - i,
    {
        proof {
            assert(entry@.take(i + 1).drop_last() =~= entry@.take(i as int));
        }
        if entry.get_char(i) == '=' {
            proof {
                lemma_first_equals_prefix(entry@, i + 1);
            }
            let key = entry.substring_char(0, i).to_owned();
            let value = entry.substring_char(i + 1, n).to_owned();
            return Some((key, value));
        }
        i = i + 1;
    }
    assert(entry@.take(n as int) =~= entry@);
    None
}

proof fn lemma_first_equals_prefix(s: Seq<char>, j: int)
    requires
        0 < j <= s.len(),
        first_equals(s.take(j)) >= 0,
    ensures
        first_equals(s) == first_equals(s.take(j)),
    decreases s.len() - j,
{
    if j < s.len() {
        assert(s.take(j + 1).drop_last() =~= s.take(j));
        lemma_first_equals_prefix(s, j + 1);
    } else {
        assert(s.take(j) =~= s);
    }
}

/// How to start the game: its arguments, the environment variables to set,
/// and the working directory, `None` for the default one.
pub struct GameLaunch {
    pub arguments: Vec<String>,
    pub environment: Vec<(String, String)>,
    pub working_directory: Option<String>,
}

/// The texts of a list of strings.
pub open spec fn texts(v: Seq<String>) -> Seq<Seq<char>> {
    v.map_values(|s: String| s@)
}

/// A start without arguments, extra environment or working directory.
pub open spec fn is_bare(l: GameLaunch) -> bool {
    l.arguments@.len() == 0 && l.environment@.len() == 0 && l.working_directory is None
}

/// The working directory used: the requested one where it exists.
pub open spec fn used_directory(requested: Option<Seq<char>>, exists: bool) -> Option<Seq<char>> {
    if exists {
        requested
    } else {
        None
    }
}

/// The arguments that the argument line gives: none for a blank line, else
/// its shell words; `None` when it does not split.
pub open spec fn launch_arguments(line: Seq<char>) -> Option<Seq<Seq<char>>> {
    if trimmed(line).len() == 0 {
        Some(seq![])
    } else {
        shell_words(line)
    }
}

/// Plans the start of the game.  Without the advanced options the game
/// starts bare.  With them, the argument line is split into words, the
/// environment variables are set, and the working directory is used where
/// it exists; an argument line that does not split stops the start.
pub fn plan_game_launch(
    use_game_arguments: bool,
    game_arguments: &str,
    environment: &Vec<(String, String)>,
    working_directory: Option<&str>,
    working_directory_exists: bool,
) -> (r: Option<GameLaunch>)
    ensures
        !use_game_arguments ==> r is Some && is_bare(r->0),
        use_game_arguments ==> (r is None <==> launch_arguments(game_arguments@) is None),
        use_game_arguments && r is Some ==> Some(texts(r->0.arguments@)) == launch_arguments(game_arguments@),
        use_game_arguments && r is Some ==> r->0.environment@ == environment@,
        use_game_arguments && r is Some ==> text_of(r->0.working_directory) == used_directory(
            match working_directory {
                Some(d) => Some(d@),
                None => None,
            },
            working_directory_exists,
        ),
{
    if !use_game_arguments {
        return Some(GameLaunch { arguments: Vec::new(), environment: Vec::new(), working_directory: None });
    }
    let arguments = if trim_text(game_arguments).is_empty() {
        let v: Vec<String> = Vec::new();
        assert(texts(v@) =~= seq![]);
        v
    } else {
        match split_command_line(game_arguments) {
            Some(words) => words,
            None => return None,
        }
    };
    let mut env: Vec<(String, String)> = Vec::new();
    let mut i: usize = 0;
    while i < environment.len()
        invariant
            i <= environment@.len(),
            env@ == environment@.take(i as int),
        decreases environment@.len() - i,
    {
        let (k, v) = &environment[i];
        let pair = (k.clone(), v.clone());
        env.push(pair);
        proof {
            assert(pair == environment@[i as int]);
            assert(env@ =~= environment@.take(i + 1));
        }
        i = i + 1;
    }
    assert(environment@.take(environment@.len() as int) =~= environment@);
    let dir = match working_directory {
        Some(d) => if working_directory_exists {
            Some(d.to_owned())
        } else {
            None
        },
        None => None,
    };
    Some(GameLaunch { arguments, environment: env, working_directory: dir })
}

} // verus!
