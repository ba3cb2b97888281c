use vstd::prelude::*;
use crate::text::{
    before_first, before_first_seq, contains, contains_seq, first_match, lemma_first_match_le, skip_chars, starts_with,
    starts_with_seq, trim, trim_seq,
};

verus! {

/// Default database host and port.
pub const DEFAULT_HOST: &'static str = "localhost:5432";
pub const DEFAULT_USER: &'static str = "postgres";
pub const DEFAULT_PASSWORD: &'static str = "password";

/// The keys of the lines that the settings are read from.
pub const URL_KEY: &'static str = "url:";
pub const USER_KEY: &'static str = "username:";
pub const PASSWORD_KEY: &'static str = "password:";
/// The scheme before the database host in the URL.
pub const JDBC_PREFIX: &'static str = "jdbc:postgresql://";
pub const NEWLINE: &'static str = "\n";
pub const SLASH: &'static str = "/";

/// Everything of the settings file before the database host.
pub const FILE_HEAD: &'static str = "spring:\n  datasource:\n    url: jdbc:postgresql://";
/// Between the host and the user name.
pub const FILE_USER: &'static str = "/students_db\n    username: ";
/// Between the user name and the password.
pub const FILE_PASSWORD: &'static str = "\n    password: ";
/// After the password.
pub const FILE_TAIL: &'static str = "\nserver:\n  port: 8080\n";

/// Connection settings of the server.
#[derive(Debug)]
pub struct SpringConfig {
    pub host: String,
    pub user: String,
    pub password: String,
    pub jar_path: String,
}

/// The settings as sequences of characters.
pub struct ConfigView {
    pub host: Seq<char>,
    pub user: Seq<char>,
    pub password: Seq<char>,
    pub jar_path: Seq<char>,
}

impl View for SpringConfig {
    type V = ConfigView;

    open spec fn view(&self) -> ConfigView {
        ConfigView { host: self.host@, user: self.user@, password: self.password@, jar_path: self.jar_path@ }
    }
}

/// The default settings.
pub open spec fn default_view() -> ConfigView {
    ConfigView { host: DEFAULT_HOST@, user: DEFAULT_USER@, password: DEFAULT_PASSWORD@, jar_path: Seq::empty() }
}

/// The value after `key` on a trimmed line that starts with it, up to a
/// repetition of the key, trimmed.
pub open spec fn key_value(t: Seq<char>, key: Seq<char>) -> Seq<char> {
    trim_seq(before_first_seq(t.skip(key.len() as int), key))
}

/// The settings after reading one line of the file.
pub open spec fn apply_line(c: ConfigView, line: Seq<char>) -> ConfigView {
    let t = trim_seq(line);
    if starts_with_seq(t, URL_KEY@) && contains_seq(t, JDBC_PREFIX@) {
        let url = key_value(t, URL_KEY@);
        if starts_with_seq(url, JDBC_PREFIX@) {
            ConfigView { host: before_first_seq(url.skip(JDBC_PREFIX@.len() as int), SLASH@), ..c }
        } else {
            c
        }
    } else if starts_with_seq(t, USER_KEY@) {
        ConfigView { user: key_value(t, USER_KEY@), ..c }
    } else if starts_with_seq(t, PASSWORD_KEY@) {
        ConfigView { password: key_value(t, PASSWORD_KEY@), ..c }
    } else {
        c
    }
}

/// The settings after reading the lines of `s` in order.
pub open spec fn apply_lines(c: ConfigView, s: Seq<char>) -> ConfigView
    decreases s.len(),
{
    let e = first_match(s, NEWLINE@);
    if s.len() == 0 {
        c
    } else if e >= s.len() {
        apply_line(c, s)
    } else {
        apply_lines(apply_line(c, s.take(e as int)), s.skip(e + 1 as int))
    }
}

/// The defaults of the settings, used where the file does not exist.
pub fn default_config() -> (r: SpringConfig)
    ensures
        r@ == default_view(),
{
    SpringConfig {
        host: String::from_str(DEFAULT_HOST),
        user: String::from_str(DEFAULT_USER),
        password: String::from_str(DEFAULT_PASSWORD),
        jar_path: String::new(),
    }
}

fn key_value_of<'a>(t: &'a str, key: &str) -> (r: &'a str)
    requires
        starts_with_seq(t@, key@),
    ensures
        r@ == key_value(t@, key@),
{
    let k = key.unicode_len();
    trim(before_first(skip_chars(t, k), key))
}

/// Reads one line into the settings.
fn read_line(c: &mut SpringConfig, line: &str)
    ensures
        final(c)@ == apply_line(old(c)@, line@),
{
    let t = trim(line);
    if starts_with(t, URL_KEY) && contains(t, JDBC_PREFIX) {
        let url = key_value_of(t, URL_KEY);
        if starts_with(url, JDBC_PREFIX) {
            let k = JDBC_PREFIX.unicode_len();
            c.host = String::from_str(before_first(skip_chars(url, k), SLASH));
        }
    } else if starts_with(t, USER_KEY) {
        c.user = String::from_str(key_value_of(t, USER_KEY));
    } else if starts_with(t, PASSWORD_KEY) {
        c.password = String::from_str(key_value_of(t, PASSWORD_KEY));
    }
}

/// Reads the settings from the text of the file: the defaults, changed by
/// the lines that carry the database URL, the user name and the password.
pub fn parse_config(content: &str) -> (r: SpringConfig)
    ensures
        r@ == apply_lines(default_view(), content@),
{
    let mut c = default_config();
    let mut rest: &str = content;
    loop
        invariant
            apply_lines(default_view(), content@) == apply_lines(c@, rest@),
        decreases rest@.len(),
    {
        let n = rest.unicode_len();
        if n == 0 {
            return c;
        }
        let line = before_first(rest, NEWLINE);
        let e = line.unicode_len();
        proof {
            lemma_first_match_le(rest@, NEWLINE@);
            assert(e == first_match(rest@, NEWLINE@));
        }
        read_line(&mut c, line);
        if e >= n {
            assert(line@ =~= rest@);
            return c;
        }
        rest = skip_chars(rest, e + 1);
    }
}

/// The settings file for `c`.
pub open spec fn file_text(c: ConfigView) -> Seq<char> {
    FILE_HEAD@ + c.host + FILE_USER@ + c.user + FILE_PASSWORD@ + c.password + FILE_TAIL@
}

/// Writes the settings as the server reads them.
pub fn render_config(c: &SpringConfig) -> (r: String)
    ensures
        r@ == file_text(c@),
{
    let mut r = String::from_str(FILE_HEAD);
    r.append(c.host.as_str());
    r.append(FILE_USER);
    r.append(c.user.as_str());
    r.append(FILE_PASSWORD);
    r.append(c.password.as_str());
    r.append(FILE_TAIL);
    r
}

} // verus!
