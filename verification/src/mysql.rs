//! The MySQL runtime adapter: its port, process, administrator and readiness, and the text
//! it hands to `mysqld`: quoted literals, generated passwords and the administrator init
//! script.
use vstd::prelude::*;
use vstd::string::*;

use crate::config::{number_field_views, pretty_json_object, runtime_config_text, text_field_views};
use crate::error::DaemonError;
use crate::mailpit::ManagedResourcePortSpec;
use crate::runtime::{
    assigned_port, env_get, env_value, is_port_missing, join_path, joined_path, required_port,
    ManagedResourceReadiness,
    ManagedResourceRuntimeContext, ProcessSpec,
};
use crate::text::{concat3, decimal, decimal_string, push_char, string_views};

verus! {

/// The characters that stand for `c` inside a quoted MySQL string literal.
pub open spec fn escaped_char(c: char) -> Seq<char> {
    if c == '\'' || c == '\\' {
        seq!['\\', c]
    } else if c == '\0' {
        seq!['\\', '0']
    } else if c == '\n' {
        seq!['\\', 'n']
    } else if c == '\r' {
        seq!['\\', 'r']
    } else if c == '\x1a' {
        seq!['\\', 'Z']
    } else {
        seq![c]
    }
}

/// `value` with every character escaped as MySQL requires inside a quoted literal.
pub open spec fn escaped(value: Seq<char>) -> Seq<char>
    decreases value.len(),
{
    if value.len() == 0 {
        Seq::empty()
    } else {
        escaped_char(value[0]) + escaped(value.drop_first())
    }
}

/// `value` as a single-quoted MySQL string literal.
pub open spec fn mysql_literal(value: Seq<char>) -> Seq<char> {
    seq!['\''] + escaped(value) + seq!['\'']
}

/// The character an escape sequence `\x` stands for in MySQL.
pub open spec fn unescaped_char(x: char) -> char {
    if x == '0' {
        '\0'
    } else if x == 'n' {
        '\n'
    } else if x == 'r' {
        '\r'
    } else if x == 'Z' {
        '\x1a'
    } else {
        x
    }
}

/// How MySQL reads the inside of a quoted literal.
pub open spec fn unescaped(text: Seq<char>) -> Seq<char>
    decreases text.len(),
{
    if text.len() == 0 {
        Seq::empty()
    } else if text[0] == '\\' && text.len() >= 2 {
        seq![unescaped_char(text[1])] + unescaped(text.subrange(2, text.len() as int))
    } else {
        seq![text[0]] + unescaped(text.drop_first())
    }
}

proof fn lemma_escaped_push(value: Seq<char>, c: char)
    ensures
        escaped(value.push(c)) == escaped(value) + escaped_char(c),
    decreases value.len(),
{
    if value.len() == 0 {
        assert(value.push(c).drop_first() =~= Seq::<char>::empty());
        assert(escaped(value.push(c)) =~= escaped_char(c) + escaped(Seq::<char>::empty()));
        assert(escaped(value) + escaped_char(c) =~= escaped_char(c));
        assert(escaped_char(c) + Seq::<char>::empty() =~= escaped_char(c));
    } else {
        lemma_escaped_push(value.drop_first(), c);
        assert(value.push(c).drop_first() =~= value.drop_first().push(c));
        assert(escaped(value.push(c)) =~= escaped_char(value[0]) + escaped(
            value.drop_first().push(c),
        ));
    }
}

/// Reading a quoted literal gives back exactly the value it was made from.
pub proof fn lemma_mysql_literal_round_trip(value: Seq<char>)
    ensures
        unescaped(escaped(value)) == value,
    decreases value.len(),
{
    if value.len() == 0 {
        assert(escaped(value) =~= Seq::<char>::empty());
    } else {
        let c = value[0];
        let rest = escaped(value.drop_first());
        lemma_mysql_literal_round_trip(value.drop_first());
        let text = escaped_char(c) + rest;
        assert(escaped(value) == text);
        if escaped_char(c).len() == 2 {
            assert(text[0] == '\\');
            assert(text.subrange(2, text.len() as int) =~= rest);
            assert(unescaped_char(text[1]) == c);
        } else {
            assert(text.drop_first() =~= rest);
            assert(text[0] == c);
        }
        assert(value =~= seq![c] + value.drop_first());
    }
}

fn push_escaped(s: &mut String, c: char)
    ensures
        final(s)@ == old(s)@ + escaped_char(c),
{
    let ghost before = s@;
    if c == '\'' || c == '\\' {
        push_char(s, '\\');
        push_char(s, c);
    } else if c == '\0' {
        push_char(s, '\\');
        push_char(s, '0');
    } else if c == '\n' {
        push_char(s, '\\');
        push_char(s, 'n');
    } else if c == '\r' {
        push_char(s, '\\');
        push_char(s, 'r');
    } else if c == '\x1a' {
        push_char(s, '\\');
        push_char(s, 'Z');
    } else {
        push_char(s, c);
    }
    proof {
        assert(s@ =~= before + escaped_char(c));
    }
}

/// Quotes `value` as a MySQL string literal, escaping quotes, backslashes, NUL, newlines,
/// carriage returns and Ctrl-Z.
pub fn mysql_string_literal(value: &str) -> (literal: String)
    ensures
        literal@ == mysql_literal(value@),
{
    let n = value.unicode_len();
    let mut literal = String::new();
    push_char(&mut literal, '\'');
    let mut i: usize = 0;
    proof {
        assert(value@.take(0) =~= Seq::<char>::empty());
        assert(literal@ =~= seq!['\''] + escaped(value@.take(0)));
    }
    while i < n
        invariant
            n == value@.len(),
            i <= n,
            literal@ == seq!['\''] + escaped(value@.take(i as int)),
        decreases n - i,
    {
        let c = value.get_char(i);
        push_escaped(&mut literal, c);
        proof {
            assert(value@.take(i + 1) =~= value@.take(i as int).push(c));
            lemma_escaped_push(value@.take(i as int), c);
        }
        i = i + 1;
    }
    push_char(&mut literal, '\'');
    proof {
        assert(value@.take(n as int) =~= value@);
    }
    literal
}

/// The lower-case hexadecimal digit for `d` (`d < 16`).
pub open spec fn hex_digit(d: nat) -> char {
    if d < 10 {
        crate::text::digit_char(d)
    } else if d == 10 {
        'a'
    } else if d == 11 {
        'b'
    } else if d == 12 {
        'c'
    } else if d == 13 {
        'd'
    } else if d == 14 {
        'e'
    } else {
        'f'
    }
}

/// `bytes` in lower-case hexadecimal, two digits per byte, high nibble first.
pub open spec fn hex(bytes: Seq<u8>) -> Seq<char>
    decreases bytes.len(),
{
    if bytes.len() == 0 {
        Seq::empty()
    } else {
        hex(bytes.drop_last()).push(hex_digit(bytes.last() as nat / 16)).push(
            hex_digit(bytes.last() as nat % 16),
        )
    }
}

/// Whether `c` is a lower-case hexadecimal digit.
pub open spec fn is_hex_char(c: char) -> bool {
    ('0' <= c && c <= '9') || ('a' <= c && c <= 'f')
}

proof fn lemma_hex_shape(bytes: Seq<u8>)
    ensures
        hex(bytes).len() == 2 * bytes.len(),
        forall|i: int| 0 <= i < hex(bytes).len() ==> is_hex_char(#[trigger] hex(bytes)[i]),
    decreases bytes.len(),
{
    if bytes.len() > 0 {
        lemma_hex_shape(bytes.drop_last());
    }
}

fn hex_digit_char(d: u8) -> (c: char)
    requires
        d < 16,
    ensures
        c == hex_digit(d as nat),
{
    if d == 0 {
        '0'
    } else if d == 1 {
        '1'
    } else if d == 2 {
        '2'
    } else if d == 3 {
        '3'
    } else if d == 4 {
        '4'
    } else if d == 5 {
        '5'
    } else if d == 6 {
        '6'
    } else if d == 7 {
        '7'
    } else if d == 8 {
        '8'
    } else if d == 9 {
        '9'
    } else if d == 10 {
        'a'
    } else if d == 11 {
        'b'
    } else if d == 12 {
        'c'
    } else if d == 13 {
        'd'
    } else if d == 14 {
        'e'
    } else {
        'f'
    }
}

/// The password of the MySQL administrator when none is configured: the given random
/// bytes in lower-case hexadecimal, 32 characters.
pub fn generated_password(random_bytes: [u8; 16]) -> (password: String)
    ensures
        password@ == hex(random_bytes@),
        password@.len() == 32,
        forall|i: int| 0 <= i < password@.len() ==> is_hex_char(#[trigger] password@[i]),
{
    let mut password = String::new();
    let mut i: usize = 0;
    proof {
        assert(random_bytes@.take(0) =~= Seq::<u8>::empty());
    }
    while i < 16
        invariant
            i <= 16,
            random_bytes@.len() == 16,
            password@ == hex(random_bytes@.take(i as int)),
        decreases 16 - i,
    {
        let byte = random_bytes[i];
        push_char(&mut password, hex_digit_char(byte / 16));
        push_char(&mut password, hex_digit_char(byte % 16));
        proof {
            assert(random_bytes@.take(i + 1).drop_last() =~= random_bytes@.take(i as int));
            assert(random_bytes@.take(i + 1).last() == byte);
        }
        i = i + 1;
    }
    proof {
        assert(random_bytes@.take(16) =~= random_bytes@);
        lemma_hex_shape(random_bytes@);
    }
    password
}

/// The account of the MySQL administrator: its quoted name at the quoted resource host.
pub open spec fn admin_account(username: Seq<char>) -> Seq<char> {
    mysql_literal(username) + "@"@ + mysql_literal("127.0.0.1"@)
}

/// The script `mysqld` runs at startup so that the administrator exists with the given
/// password and every privilege.
pub open spec fn init_script(username: Seq<char>, password: Seq<char>) -> Seq<char> {
    let user = admin_account(username);
    let pass = mysql_literal(password);
    "CREATE USER IF NOT EXISTS "@ + user + " IDENTIFIED BY "@ + pass + ";\n"@
        + "ALTER USER "@ + user + " IDENTIFIED BY "@ + pass + ";\n"@ + "GRANT ALL PRIVILEGES ON *.* TO "@
        + user + " WITH GRANT OPTION;\n"@ + "FLUSH PRIVILEGES;\n"@
}

/// Builds the administrator init script for `mysqld`.
pub fn mysql_init_script(username: &str, password: &str) -> (script: String)
    ensures
        script@ == init_script(username@, password@),
{
    let user_literal = mysql_string_literal(username);
    let host_literal = mysql_string_literal("127.0.0.1");
    let password_literal = mysql_string_literal(password);
    let mut user = user_literal;
    user.append("@");
    user.append(host_literal.as_str());
    let mut script = String::from_str("CREATE USER IF NOT EXISTS ");
    script.append(user.as_str());
    script.append(" IDENTIFIED BY ");
    script.append(password_literal.as_str());
    script.append(";\n");
    script.append("ALTER USER ");
    script.append(user.as_str());
    script.append(" IDENTIFIED BY ");
    script.append(password_literal.as_str());
    script.append(";\n");
    script.append("GRANT ALL PRIVILEGES ON *.* TO ");
    script.append(user.as_str());
    script.append(" WITH GRANT OPTION;\n");
    script.append("FLUSH PRIVILEGES;\n");
    script
}

/// How the daemon reaches the MySQL administrator of a track.
pub struct SqlAdminContext {
    pub host: String,
    pub port: u16,
    pub username: String,
    pub password: String,
}

/// The socket of a MySQL track: `resources/mysql-<track>.sock` under the run directory.
pub fn mysql_socket_path(run_dir: &str, track: &str) -> (path: String)
    ensures
        path@ == joined_path(run_dir@, "resources/mysql-"@ + track@ + ".sock"@),
{
    let relative = concat3("resources/mysql-", track, ".sock");
    join_path(run_dir, relative.as_str())
}

/// The administrator init file of a MySQL track: `resources/mysql-<track>.init.sql` under the
/// run directory.
pub fn mysql_init_file_path(run_dir: &str, track: &str) -> (path: String)
    ensures
        path@ == joined_path(run_dir@, "resources/mysql-"@ + track@ + ".init.sql"@),
{
    let relative = concat3("resources/mysql-", track, ".init.sql");
    join_path(run_dir, relative.as_str())
}

/// Where the records of a MySQL runtime live.
pub struct MysqlRuntimePaths {
    pub config_path: String,
    pub log_path: String,
    pub pid_path: String,
    pub metadata_path: String,
    /// The socket under the run directory: `resources/mysql-<track>.sock`.
    pub socket_path: String,
    /// The init file under the run directory: `resources/mysql-<track>.init.sql`.
    pub init_file_path: String,
}

/// The MySQL runtime adapter.
pub struct MysqlRuntimeAdapter;

/// The administrator context of a track: the resource host and the track's `mysql` port,
/// the environment's `username` (or `pv_root`) and `password` (or a fresh one made
/// of `random_bytes`).
pub open spec fn admin_context_of(context: ManagedResourceRuntimeContext, random_bytes: Seq<u8>, admin: SqlAdminContext) -> bool {
    &&& assigned_port(context.ports@, "mysql"@) == Some(admin.port)
    &&& admin.host@ == "127.0.0.1"@
    &&& admin.username@ == match env_value(context.env@, "username"@) {
        Some(name) => name,
        None => "pv_root"@,
    }
    &&& admin.password@ == match env_value(context.env@, "password"@) {
        Some(password) => password,
        None => hex(random_bytes),
    }
}

impl MysqlRuntimeAdapter {
    /// The adapter.
    pub fn new() -> (adapter: Self) {
        MysqlRuntimeAdapter
    }

    /// The resource name of the runtime.
    pub fn resource_name(&self) -> (name: &'static str)
        ensures
            name@ == "mysql"@,
    {
        "mysql"
    }

    /// MySQL asks for one port named `mysql`, preferably 3306.
    pub fn port_specs(&self) -> (specs: Vec<ManagedResourcePortSpec>)
        ensures
            specs@.len() == 1,
            specs@[0].name@ == "mysql"@,
            specs@[0].preferred_port == 3306,
    {
        let mut specs = Vec::new();
        specs.push(ManagedResourcePortSpec { name: "mysql", preferred_port: 3306 });
        specs
    }

    /// The administrator context of the track of `context`; `random_bytes` make the password
    /// when the environment has none.
    pub fn admin_context(&self, context: &ManagedResourceRuntimeContext, random_bytes: [u8; 16]) -> (r: Result<
        SqlAdminContext,
        DaemonError,
    >)
        ensures
            match r {
                Ok(admin) => admin_context_of(*context, random_bytes@, admin),
                Err(e) => assigned_port(context.ports@, "mysql"@) is None && is_port_missing(e, *context, "mysql"@),
            },
            assigned_port(context.ports@, "mysql"@) is Some ==> r is Ok,
    {
        let port = match required_port(context, "mysql") {
            Ok(port) => port,
            Err(e) => return Err(e),
        };
        let username = match env_get(&context.env, "username") {
            Some(name) => name,
            None => String::from_str("pv_root"),
        };
        let password = match env_get(&context.env, "password") {
            Some(password) => password,
            None => generated_password(random_bytes),
        };
        Ok(SqlAdminContext { host: String::from_str("127.0.0.1"), port, username, password })
    }

    /// The process that runs `mysqld` for the track of `context`, on the resource host, its
    /// port and socket, with the administrator init file; and that file's script.
    pub fn build_process_spec(
        &self,
        context: &ManagedResourceRuntimeContext,
        command: String,
        paths: MysqlRuntimePaths,
        random_bytes: [u8; 16],
    ) -> (r: Result<(ProcessSpec, String), DaemonError>)
        ensures
            match assigned_port(context.ports@, "mysql"@) {
                Some(port) => match r {
                    Ok((spec, init)) => {
                        &&& spec.name@ == context.resource_name@ + "-"@ + context.track@
                        &&& spec.command == command
                        &&& string_views(spec.arguments@) == seq![
                            "--no-defaults"@,
                            "--datadir"@,
                            context.data_dir@,
                            "--bind-address=127.0.0.1"@,
                            "--port"@,
                            decimal(port as nat),
                            "--socket"@,
                            paths.socket_path@,
                            "--init-file"@,
                            paths.init_file_path@,
                        ]
                        &&& spec.config_path == paths.config_path
                        &&& spec.log_path == paths.log_path
                        &&& spec.pid_path == paths.pid_path
                        &&& spec.metadata_path == paths.metadata_path
                        &&& spec.resource_name == context.resource_name
                        &&& spec.track == context.track
                        &&& exists|admin: SqlAdminContext|
                            admin_context_of(*context, random_bytes@, admin) && #[trigger] init_script(
                                admin.username@,
                                admin.password@,
                            ) == init@
                    },
                    Err(_) => false,
                },
                None => r matches Err(e) && is_port_missing(e, *context, "mysql"@),
            },
    {
        let port = match required_port(context, "mysql") {
            Ok(port) => port,
            Err(e) => return Err(e),
        };
        let admin = match self.admin_context(context, random_bytes) {
            Ok(admin) => admin,
            Err(e) => return Err(e),
        };
        let init = mysql_init_script(admin.username.as_str(), admin.password.as_str());
        let mut arguments: Vec<String> = Vec::new();
        arguments.push(String::from_str("--no-defaults"));
        arguments.push(String::from_str("--datadir"));
        arguments.push(context.data_dir.clone());
        arguments.push(String::from_str("--bind-address=127.0.0.1"));
        arguments.push(String::from_str("--port"));
        arguments.push(decimal_string(port as u64));
        arguments.push(String::from_str("--socket"));
        arguments.push(paths.socket_path);
        arguments.push(String::from_str("--init-file"));
        arguments.push(paths.init_file_path);
        proof {
            assert(string_views(arguments@) =~= seq![
                "--no-defaults"@,
                "--datadir"@,
                context.data_dir@,
                "--bind-address=127.0.0.1"@,
                "--port"@,
                decimal(port as nat),
                "--socket"@,
                paths.socket_path@,
                "--init-file"@,
                paths.init_file_path@,
            ]);
            assert(init_script(admin.username@, admin.password@) == init@);
        }
        let spec = ProcessSpec {
            name: concat3(context.resource_name.as_str(), "-", context.track.as_str()),
            command,
            arguments,
            config_path: paths.config_path,
            log_path: paths.log_path,
            pid_path: paths.pid_path,
            metadata_path: paths.metadata_path,
            resource_name: context.resource_name.clone(),
            track: context.track.clone(),
        };
        Ok((spec, init))
    }

    /// The config written beside the runtime: its resource, track, data directory, port,
    /// socket and init file.
    pub fn runtime_config(&self, context: &ManagedResourceRuntimeContext, paths: &MysqlRuntimePaths) -> (r: Result<
        String,
        DaemonError,
    >)
        ensures
            match assigned_port(context.ports@, "mysql"@) {
                Some(port) => r matches Ok(text) && text@ == pretty_json_object(
                        seq![
                            ("resource"@, context.resource_name@),
                            ("track"@, context.track@),
                            ("data_dir"@, context.data_dir@),
                            ("socket"@, paths.socket_path@),
                            ("init_file"@, paths.init_file_path@),
                        ],
                        seq![("mysql_port"@, port as u64)],
                    ),
                None => r matches Err(e) && is_port_missing(e, *context, "mysql"@),
            },
    {
        let port = match required_port(context, "mysql") {
            Ok(port) => port,
            Err(e) => return Err(e),
        };
        let mut text_fields: Vec<(String, String)> = Vec::new();
        text_fields.push((String::from_str("resource"), context.resource_name.clone()));
        text_fields.push((String::from_str("track"), context.track.clone()));
        text_fields.push((String::from_str("data_dir"), context.data_dir.clone()));
        text_fields.push((String::from_str("socket"), paths.socket_path.clone()));
        text_fields.push((String::from_str("init_file"), paths.init_file_path.clone()));
        let mut number_fields: Vec<(String, u64)> = Vec::new();
        number_fields.push((String::from_str("mysql_port"), port as u64));
        proof {
            assert(text_field_views(text_fields@) =~= seq![
                ("resource"@, context.resource_name@),
                ("track"@, context.track@),
                ("data_dir"@, context.data_dir@),
                ("socket"@, paths.socket_path@),
                ("init_file"@, paths.init_file_path@),
            ]);
            assert(number_field_views(number_fields@) =~= seq![("mysql_port"@, port as u64)]);
        }
        runtime_config_text(&text_fields, &number_fields)
    }

    /// MySQL is ready once its administrator answers: an adapter check named `mysql-admin`
    /// that pings with the track's administrator context.
    pub fn readiness(&self, context: &ManagedResourceRuntimeContext, random_bytes: [u8; 16]) -> (r: Result<
        ManagedResourceReadiness<SqlAdminContext>,
        DaemonError,
    >)
        ensures
            match r {
                Ok(ManagedResourceReadiness::Async(check)) => check.name@ == "mysql-admin"@ && admin_context_of(
                    *context,
                    random_bytes@,
                    check.check,
                ),
                Ok(_) => false,
                Err(e) => assigned_port(context.ports@, "mysql"@) is None && is_port_missing(e, *context, "mysql"@),
            },
            assigned_port(context.ports@, "mysql"@) is Some ==> r is Ok,
    {
        match self.admin_context(context, random_bytes) {
            Ok(admin) => Ok(ManagedResourceReadiness::async_check(String::from_str("mysql-admin"), admin)),
            Err(e) => Err(e),
        }
    }
}

} // verus!
