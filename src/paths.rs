//! Where the login service's files live, optionally below a virtual root.
use vstd::prelude::*;

verus! {

/// Name of the desktop profile inside the greetd directory.
pub const DEFAULT_CONFIG_FILE: &'static str = "config_default.toml";

/// Suffix that turns the active configuration's path into its backup's path.
pub const BACKUP_SUFFIX: &'static str = ".bak";

/// Name of the lock record inside the greetd directory.
pub const LOCK_FILE: &'static str = "game-mode.lock";

/// `s` without its leading slashes.
pub open spec fn strip_leading_slashes(s: Seq<char>) -> Seq<char>
    decreases s.len(),
{
    if s.len() > 0 && s[0] == '/' {
        strip_leading_slashes(s.drop_first())
    } else {
        s
    }
}

/// `s` without its trailing slashes.
pub open spec fn strip_trailing_slashes(s: Seq<char>) -> Seq<char>
    decreases s.len(),
{
    if s.len() > 0 && s.last() == '/' {
        strip_trailing_slashes(s.drop_last())
    } else {
        s
    }
}

/// `part` placed below `base`: exactly one slash between them, whether or
/// not `part` is written as an absolute path.
pub open spec fn join_path(base: Seq<char>, part: Seq<char>) -> Seq<char> {
    strip_trailing_slashes(base) + seq!['/'] + strip_leading_slashes(part)
}

proof fn lemma_strip_leading_step(s: Seq<char>, i: int)
    requires
        0 <= i < s.len(),
        s[i] == '/',
    ensures
        strip_leading_slashes(s.subrange(i, s.len() as int)) == strip_leading_slashes(
            s.subrange(i + 1, s.len() as int),
        ),
{
    assert(s.subrange(i, s.len() as int).drop_first() =~= s.subrange(i + 1, s.len() as int));
}

proof fn lemma_strip_trailing_step(s: Seq<char>, j: int)
    requires
        0 < j <= s.len(),
        s[j - 1] == '/',
    ensures
        strip_trailing_slashes(s.subrange(0, j)) == strip_trailing_slashes(s.subrange(0, j - 1)),
{
    assert(s.subrange(0, j).drop_last() =~= s.subrange(0, j - 1));
}

/// Places `part` below `base` (see `join_path`).
pub fn join(base: &str, part: &str) -> (r: String)
    ensures
        r@ == join_path(base@, part@),
{
    let n = part.unicode_len();
    let mut i: usize = 0;
    assert(part@.subrange(0, n as int) =~= part@);
    while i < n && part.get_char(i) == '/'
        invariant
            n == part@.len(),
            i <= n,
            strip_leading_slashes(part@) == strip_leading_slashes(part@.subrange(i as int, n as int)),
        decreases n - i,
    {
        proof {
            lemma_strip_leading_step(part@, i as int);
        }
        i = i + 1;
    }
    proof {
        let u = part@.subrange(i as int, n as int);
        if i < n {
            assert(u[0] == part@[i as int]);
        }
    }
    let m = base.unicode_len();
    let mut j: usize = m;
    assert(base@.subrange(0, m as int) =~= base@);
    while j > 0 && base.get_char(j - 1) == '/'
        invariant
            m == base@.len(),
            j <= m,
            strip_trailing_slashes(base@) == strip_trailing_slashes(base@.subrange(0, j as int)),
        decreases j,
    {
        proof {
            lemma_strip_trailing_step(base@, j as int);
        }
        j = j - 1;
    }
    proof {
        let w = base@.subrange(0, j as int);
        if j > 0 {
            assert(w.last() == base@[j - 1]);
        }
        reveal_strlit("/");
    }
    let head = base.substring_char(0, j).to_owned();
    let joined = head.concat("/");
    joined.concat(part.substring_char(i, n))
}

/// The abstract content of a `PathManager`.
pub struct PathManagerView {
    pub root: Seq<char>,
    pub greetd_dir: Seq<char>,
    pub config_file: Seq<char>,
    pub game_mode_config: Seq<char>,
}

impl PathManagerView {
    pub open spec fn greetd_dir_path(self) -> Seq<char> {
        join_path(self.root, self.greetd_dir)
    }

    pub open spec fn config_path(self) -> Seq<char> {
        join_path(self.greetd_dir_path(), self.config_file)
    }

    pub open spec fn default_config_path(self) -> Seq<char> {
        join_path(self.greetd_dir_path(), DEFAULT_CONFIG_FILE@)
    }

    pub open spec fn game_mode_config_path(self) -> Seq<char> {
        join_path(self.greetd_dir_path(), self.game_mode_config)
    }

    pub open spec fn backup_path(self) -> Seq<char> {
        self.config_path() + BACKUP_SUFFIX@
    }

    pub open spec fn lock_path(self) -> Seq<char> {
        join_path(self.greetd_dir_path(), LOCK_FILE@)
    }
}

/// Resolves the login service's directory and profiles below a root
/// (`/` on a real system, a scratch directory in virtual mode).
#[derive(Debug, Default)]
pub struct PathManager {
    root: String,
    greetd_dir: String,
    config_file: String,
    game_mode_config: String,
}

impl View for PathManager {
    type V = PathManagerView;

    closed spec fn view(&self) -> PathManagerView {
        PathManagerView {
            root: self.root@,
            greetd_dir: self.greetd_dir@,
            config_file: self.config_file@,
            game_mode_config: self.game_mode_config@,
        }
    }
}

impl PathManager {
    pub fn new(root: &str, greetd_dir: &str, config_file: &str, game_mode_config: &str) -> (r:
        Self)
        ensures
            r@ == (PathManagerView {
                root: root@,
                greetd_dir: greetd_dir@,
                config_file: config_file@,
                game_mode_config: game_mode_config@,
            }),
    {
        PathManager {
            root: root.to_owned(),
            greetd_dir: greetd_dir.to_owned(),
            config_file: config_file.to_owned(),
            game_mode_config: game_mode_config.to_owned(),
        }
    }

    pub fn get_greetd_dir(&self) -> (r: String)
        ensures
            r@ == self@.greetd_dir_path(),
    {
        join(self.root.as_str(), self.greetd_dir.as_str())
    }

    pub fn get_config_path(&self) -> (r: String)
        ensures
            r@ == self@.config_path(),
    {
        let dir = self.get_greetd_dir();
        join(dir.as_str(), self.config_file.as_str())
    }

    pub fn get_default_config_path(&self) -> (r: String)
        ensures
            r@ == self@.default_config_path(),
    {
        let dir = self.get_greetd_dir();
        join(dir.as_str(), DEFAULT_CONFIG_FILE)
    }

    pub fn get_game_mode_config_path(&self) -> (r: String)
        ensures
            r@ == self@.game_mode_config_path(),
    {
        let dir = self.get_greetd_dir();
        join(dir.as_str(), self.game_mode_config.as_str())
    }

    /// `path` placed below the root.
    pub fn below_root(&self, path: &str) -> (r: String)
        ensures
            r@ == join_path(self@.root, path@),
    {
        join(self.root.as_str(), path)
    }

    /// The file `name` of the greetd directory.
    pub fn in_greetd_dir(&self, name: &str) -> (r: String)
        ensures
            r@ == join_path(self@.greetd_dir_path(), name@),
    {
        let dir = self.get_greetd_dir();
        join(dir.as_str(), name)
    }

    /// Where the active configuration is saved while game mode is on.
    pub fn get_backup_path(&self) -> (r: String)
        ensures
            r@ == self@.backup_path(),
    {
        let config = self.get_config_path();
        config.concat(BACKUP_SUFFIX)
    }

    /// Where the running instance records its process id.
    pub fn get_lock_path(&self) -> (r: String)
        ensures
            r@ == self@.lock_path(),
    {
        let dir = self.get_greetd_dir();
        join(dir.as_str(), LOCK_FILE)
    }
}

} // verus!
