//! Application settings read from `config.toml`.
use vstd::prelude::*;
use crate::text::{append_str, str_eq};

verus! {

/// All settings of the service.
pub struct Config {
    pub bot: BotConfig,
    pub database: DatabaseConfig,
    pub stripe: StripeConfig,
    pub scheduler: SchedulerConfig,
}

/// The Telegram bot's name, description and administrators.
pub struct BotConfig {
    pub name: String,
    pub description: String,
    pub admins: Vec<i64>,
}

/// Where the database lives.
pub enum DatabaseConfig {
    Sqlite { path: String },
}

impl DatabaseConfig {
    /// The file path of the database.
    pub fn path(&self) -> (r: String)
        ensures
            r@ == (match self {
                DatabaseConfig::Sqlite { path } => path@,
            }),
    {
        match self {
            DatabaseConfig::Sqlite { path } => path.clone(),
        }
    }
}

/// Payment provider settings.
#[derive(Clone)]
pub struct StripeConfig {
    pub secret_key: String,
    pub publishable_key: String,
    pub webhook_secret: String,
    pub base_url: String,
    pub test_mode: bool,
}

/// When reports are sent and how often searches run.
pub struct SchedulerConfig {
    pub daily_report_hour: u32,
    pub run_scrapes_interval_minutes: u64,
}

/// The value `test_mode` takes when the settings leave it out.
pub fn default_true() -> (r: bool)
    ensures
        r,
{
    true
}

impl BotConfig {
    /// Whether `user_id` is one of the configured administrators.
    pub fn is_admin(&self, user_id: i64) -> (r: bool)
        ensures
            r == self.admins@.contains(user_id),
    {
        let mut i: usize = 0;
        while i < self.admins.len()
            invariant
                i <= self.admins.len(),
                forall|k: int| 0 <= k < i ==> self.admins@[k] != user_id,
            decreases self.admins.len() - i,
        {
            if self.admins[i] == user_id {
                assert(self.admins@[i as int] == user_id);
                return true;
            }
            i = i + 1;
        }
        false
    }
}


/// A `${NAME}` or `${NAME:-default}` reference in the settings text.
pub struct EnvRef {
    pub name: String,
    pub default: Option<String>,
}

/// The settings text cut at its references: the text pieces around them
/// (one more than there are references) and the references in order.
pub struct EnvTemplate {
    pub gaps: Vec<String>,
    pub refs: Vec<EnvRef>,
}

/// What an environment reference holds.
pub open spec fn ref_view(r: EnvRef) -> (Seq<char>, Option<Seq<char>>) {
    (r.name@, crate::text::opt_view(r.default))
}

/// The text pieces and references that the pattern
/// `\$\{(\w+)(?::-([^}]*))?\}` finds in `content`, as `Regex::split` and
/// `Regex::captures_iter` give them.
pub uninterp spec fn env_pattern(content: Seq<char>) -> (Seq<Seq<char>>, Seq<(Seq<char>, Option<Seq<char>>)>);

/// Calls `Regex::split` and `Regex::captures_iter` with the reference
/// pattern (groups 1 and 2 are the name and the default). The result is
/// the named `env_pattern`; `split` yields one piece more than there are
/// matches.
#[verifier::external_body]
pub fn env_template(content: &str) -> (r: EnvTemplate)
    ensures
        r.gaps@.len() == r.refs@.len() + 1,
        (crate::text::strs(r.gaps@), r.refs@.map_values(|x: EnvRef| ref_view(x))) == env_pattern(content@),
{
    let re = regex::Regex::new(r"\$\{(\w+)(?::-([^}]*))?\}").unwrap();
    let gaps = re.split(content).map(String::from).collect();
    let refs = re.captures_iter(content).map(|c| EnvRef {
        name: c[1].to_string(),
        default: c.get(2).map(|d| d.as_str().to_string()),
    }).collect();
    EnvTemplate { gaps, refs }
}

/// The value of the variable `name` among `env` (the first pair with that
/// name).
pub open spec fn env_value(env: Seq<(String, String)>, name: Seq<char>) -> Option<Seq<char>> {
    if exists|i: int| 0 <= i < env.len() && env[i].0@ == name {
        Some(env[choose|i: int| 0 <= i < env.len() && env[i].0@ == name && forall|j: int| 0 <= j < i ==> env[j].0@ != name].1@)
    } else {
        None
    }
}

/// What a reference is replaced by: the variable's value, else its
/// default, else nothing.
pub open spec fn ref_value(env: Seq<(String, String)>, r: (Seq<char>, Option<Seq<char>>)) -> Seq<char> {
    match env_value(env, r.0) {
        Some(v) => v,
        None => r.1.unwrap_or(Seq::<char>::empty()),
    }
}

/// The text pieces with each reference replaced, up to piece `n`.
pub open spec fn expanded(gaps: Seq<Seq<char>>, refs: Seq<(Seq<char>, Option<Seq<char>>)>, env: Seq<(String, String)>, n: nat) -> Seq<char>
    decreases n,
{
    if n == 0 {
        gaps[0]
    } else {
        expanded(gaps, refs, env, (n - 1) as nat) + ref_value(env, refs[n - 1]) + gaps[n as int]
    }
}

/// The settings text with every reference replaced (see `ref_value`).
pub open spec fn expansion(content: Seq<char>, env: Seq<(String, String)>) -> Seq<char> {
    let (gaps, refs) = env_pattern(content);
    expanded(gaps, refs, env, refs.len())
}

/// Looks a variable up among `env`.
fn lookup(env: &Vec<(String, String)>, name: &str) -> (r: Option<String>)
    ensures
        crate::text::opt_view(r) == env_value(env@, name@),
{
    let mut i: usize = 0;
    while i < env.len()
        invariant
            i <= env.len(),
            forall|j: int| 0 <= j < i ==> env@[j].0@ != name@,
        decreases env.len() - i,
    {
        if str_eq(env[i].0.as_str(), name) {
            proof {
                let w = choose|w: int| 0 <= w < env@.len() && env@[w].0@ == name@ && forall|j: int| 0 <= j < w ==> env@[j].0@ != name@;
                assert(0 <= i < env@.len() && env@[i as int].0@ == name@);
                if w < i {
                    assert(env@[w].0@ != name@);
                } else if w > i {
                    assert(env@[i as int].0@ != name@);
                }
            }
            return Some(env[i].1.clone());
        }
        i = i + 1;
    }
    None
}

impl Config {
    /// Replaces each `${NAME}` or `${NAME:-default}` in the settings text by
    /// the value of `NAME` among the environment variables `env`, else by
    /// the default, else by nothing.
    pub fn expand_env_vars(content: &str, env: &Vec<(String, String)>) -> (r: String)
        ensures
            r@ == expansion(content@, env@),
    {
        let t = env_template(content);
        let ghost gaps = crate::text::strs(t.gaps@);
        let ghost refs = t.refs@.map_values(|x: EnvRef| ref_view(x));
        let mut out = t.gaps[0].clone();
        let mut i: usize = 0;
        while i < t.refs.len()
            invariant
                i <= t.refs.len(),
                t.gaps@.len() == t.refs@.len() + 1,
                gaps == crate::text::strs(t.gaps@),
                refs == t.refs@.map_values(|x: EnvRef| ref_view(x)),
                out@ == expanded(gaps, refs, env@, i as nat),
            decreases t.refs.len() - i,
        {
            let r = &t.refs[i];
            match lookup(env, r.name.as_str()) {
                Some(v) => append_str(&mut out, v.as_str()),
                None => match &r.default {
                    Some(d) => append_str(&mut out, d.as_str()),
                    None => {},
                },
            }
            append_str(&mut out, t.gaps[i + 1].as_str());
            proof {
                assert(refs[i as int] == ref_view(*r));
                assert(out@ =~= expanded(gaps, refs, env@, (i + 1) as nat));
            }
            i = i + 1;
        }
        out
    }
}

/// A reference whose variable is set is replaced by that variable's value
/// (the first pair of `env` with its name), whatever default it writes: the
/// expansion up to the reference's following text piece is the expansion
/// before it, the value, and that piece.
pub proof fn lemma_set_variable_wins(content: Seq<char>, env: Seq<(String, String)>, k: int, i: int)
    requires
        0 <= k < env_pattern(content).1.len(),
        0 <= i < env.len(),
        env[i].0@ == env_pattern(content).1[k].0,
        forall|j: int| 0 <= j < i ==> #[trigger] env[j].0@ != env_pattern(content).1[k].0,
    ensures
        expanded(env_pattern(content).0, env_pattern(content).1, env, (k + 1) as nat) == expanded(
            env_pattern(content).0,
            env_pattern(content).1,
            env,
            k as nat,
        ) + env[i].1@ + env_pattern(content).0[k + 1],
{
    let name = env_pattern(content).1[k].0;
    assert(0 <= i < env.len() && env[i].0@ == name);
    let w = choose|w: int| 0 <= w < env.len() && env[w].0@ == name && forall|j: int| 0 <= j < w ==> env[j].0@ != name;
    if w < i {
        assert(env[w].0@ != name);
    } else if w > i {
        assert(env[i].0@ != name);
    }
    assert(env_value(env, name) == Some(env[i].1@));
}

/// A reference whose variable is not set is replaced by its default, or by
/// nothing when it has none.
pub proof fn lemma_unset_variable_gives_default(content: Seq<char>, env: Seq<(String, String)>, k: int)
    requires
        0 <= k < env_pattern(content).1.len(),
        forall|j: int| 0 <= j < env.len() ==> #[trigger] env[j].0@ != env_pattern(content).1[k].0,
    ensures
        expanded(env_pattern(content).0, env_pattern(content).1, env, (k + 1) as nat) == expanded(
            env_pattern(content).0,
            env_pattern(content).1,
            env,
            k as nat,
        ) + env_pattern(content).1[k].1.unwrap_or(Seq::<char>::empty()) + env_pattern(content).0[k + 1],
{
    assert(env_value(env, env_pattern(content).1[k].0) is None);
}

} // verus!
