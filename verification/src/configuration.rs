//! Settings of the service and the environment it runs in.

use vstd::prelude::*;
use vstd::std_specs::convert::TryFromSpecImpl;

verus! {

/// Where the service listens.
pub struct ApplicationSettings {
    pub port: u16,
    pub host: String,
}

/// Where and as whom the service reaches its database. The password is
/// sensitive: the type cannot be printed.
#[derive(Clone)]
pub struct DatabaseSettings {
    pub username: String,
    pub password: String,
    pub port: u16,
    pub host: String,
    pub database_name: String,
}

/// All settings of the service.
pub struct Settings {
    pub database: DatabaseSettings,
    pub application: ApplicationSettings,
}

/// The character of a digit below ten.
pub open spec fn digit_char(d: nat) -> char {
    if d == 0 {
        '0'
    } else if d == 1 {
        '1'
    } else if d == 2 {
        '2'
    } else if d == 3 {
        '3'
    } else if d == 4 {
        '4'
    } else if d == 5 {
        '5'
    } else if d == 6 {
        '6'
    } else if d == 7 {
        '7'
    } else if d == 8 {
        '8'
    } else {
        '9'
    }
}

/// The decimal numeral of `n`, without leading zeros.
pub open spec fn decimal(n: nat) -> Seq<char>
    decreases n,
{
    if n < 10 {
        seq![digit_char(n)]
    } else {
        decimal(n / 10).push(digit_char(n % 10))
    }
}

/// The one-character text of a digit below ten.
fn digit_text(d: u16) -> (text: &'static str)
    requires
        d < 10,
    ensures
        text@ == seq![digit_char(d as nat)],
{
    proof {
        reveal_strlit("0");
        reveal_strlit("1");
        reveal_strlit("2");
        reveal_strlit("3");
        reveal_strlit("4");
        reveal_strlit("5");
        reveal_strlit("6");
        reveal_strlit("7");
        reveal_strlit("8");
        reveal_strlit("9");
    }
    if d == 0 {
        "0"
    } else if d == 1 {
        "1"
    } else if d == 2 {
        "2"
    } else if d == 3 {
        "3"
    } else if d == 4 {
        "4"
    } else if d == 5 {
        "5"
    } else if d == 6 {
        "6"
    } else if d == 7 {
        "7"
    } else if d == 8 {
        "8"
    } else {
        "9"
    }
}

/// The decimal numeral of a port.
pub fn port_text(port: u16) -> (text: String)
    ensures
        text@ == decimal(port as nat),
    decreases port,
{
    if port < 10 {
        String::from_str(digit_text(port))
    } else {
        port_text(port / 10).concat(digit_text(port % 10))
    }
}

impl ApplicationSettings {
    /// Host, a colon, and the port in decimal.
    pub open spec fn address_text(self) -> Seq<char> {
        self.host@ + ":"@ + decimal(self.port as nat)
    }

    /// The address to listen on.
    pub fn address(&self) -> (address: String)
        ensures
            address@ == self.address_text(),
    {
        String::from_str(self.host.as_str()).concat(":").concat(port_text(self.port).as_str())
    }
}

impl DatabaseSettings {
    /// Scheme, user and password, host and port, and the name of the
    /// database.
    pub open spec fn connection_text(self) -> Seq<char> {
        "postgres://"@ + self.username@ + ":"@ + self.password@ + "@"@ + self.host@ + ":"@
            + decimal(self.port as nat) + "/"@ + self.database_name@
    }

    /// The URL under which the database is reached.
    pub fn connection_string(&self) -> (url: String)
        ensures
            url@ == self.connection_text(),
    {
        String::from_str("postgres://").concat(self.username.as_str()).concat(":").concat(
            self.password.as_str(),
        ).concat("@").concat(self.host.as_str()).concat(":").concat(
            port_text(self.port).as_str(),
        ).concat("/").concat(self.database_name.as_str())
    }
}

/// The environment that selects which settings file is layered over the base.
#[derive(Clone, Copy, Debug, PartialEq, Eq, Structural)]
pub enum Environment {
    Local,
    Production,
}

/// The lower-case form of `s`, as `str::to_lowercase` gives it.
pub uninterp spec fn lowercase(s: Seq<char>) -> Seq<char>;

/// `str::to_lowercase` of std: the result is the lower-case form of the text,
/// which `lowercase` names.
pub assume_specification[ str::to_lowercase ](s: &str) -> (lowered: String)
    ensures
        lowered@ == lowercase(s@),
;

/// The message that reports `name` as no environment.
pub open spec fn unknown_environment_message(name: Seq<char>) -> Seq<char> {
    "Unable to convert "@ + name + ", value must `local` or `production`"@
}

/// The environment that a lower-case name stands for.
pub open spec fn environment_named(name: Seq<char>) -> Result<Environment, Seq<char>> {
    if name == "local"@ {
        Ok(Environment::Local)
    } else if name == "production"@ {
        Ok(Environment::Production)
    } else {
        Err(unknown_environment_message(name))
    }
}

impl Environment {
    /// The name that stands for each environment.
    pub open spec fn name(self) -> Seq<char> {
        match self {
            Environment::Local => "local"@,
            Environment::Production => "production"@,
        }
    }

    /// The lower-case name of the environment.
    pub fn as_str(&self) -> (name: &'static str)
        ensures
            name@ == self.name(),
    {
        match self {
            Environment::Local => "local",
            Environment::Production => "production",
        }
    }

    /// The environment with exactly this name.
    pub fn from_name(name: &str) -> (res: Result<Environment, String>)
        ensures
            res matches Ok(environment) ==> environment_named(name@) == Ok::<
                Environment,
                Seq<char>,
            >(environment),
            res matches Err(message) ==> environment_named(name@) == Err::<
                Environment,
                Seq<char>,
            >(message@),
    {
        let given = String::from_str(name);
        if given == String::from_str("local") {
            Ok(Environment::Local)
        } else if given == String::from_str("production") {
            Ok(Environment::Production)
        } else {
            Err(
                String::from_str("Unable to convert ").concat(name).concat(
                    ", value must `local` or `production`",
                ),
            )
        }
    }

    /// The environment that the setting selects: the local one where nothing
    /// is set, else the one that the value names in any letter case.
    pub fn from_variable(value: Option<String>) -> (res: Result<Environment, String>)
        ensures
            value is None ==> res == Ok::<Environment, String>(Environment::Local),
            value matches Some(text) ==> (res matches Ok(environment) ==> environment_named(
                lowercase(text@),
            ) == Ok::<Environment, Seq<char>>(environment)),
            value matches Some(text) ==> (res matches Err(message) ==> environment_named(
                lowercase(text@),
            ) == Err::<Environment, Seq<char>>(message@)),
    {
        match value {
            None => Ok(Environment::Local),
            Some(text) => Environment::try_from(text),
        }
    }

    /// The name of the settings file of the environment.
    pub fn settings_file(&self) -> (file: String)
        ensures
            file@ == self.name() + ".yaml"@,
    {
        String::from_str(self.as_str()).concat(".yaml")
    }
}

/// The conversion as a function of the text. Messages are told apart by their
/// characters, not as values, so `try_from` pins its result in its own
/// contract and does not claim equality with this function.
impl TryFromSpecImpl<String> for Environment {
    open spec fn obeys_try_from_spec() -> bool {
        false
    }

    open spec fn try_from_spec(v: String) -> Result<Self, Self::Error> {
        match environment_named(lowercase(v@)) {
            Ok(environment) => Ok(environment),
            Err(text) => Err(choose|message: String| #[trigger] message@ == text),
        }
    }
}

impl TryFrom<String> for Environment {
    type Error = String;

    /// The environment that `value` names once it is put in lower case.
    fn try_from(value: String) -> (res: Result<Self, Self::Error>)
        ensures
            res matches Ok(environment) ==> environment_named(lowercase(value@)) == Ok::<
                Environment,
                Seq<char>,
            >(environment),
            res matches Err(message) ==> environment_named(lowercase(value@)) == Err::<
                Environment,
                Seq<char>,
            >(message@),
    {
        let lowered = value.as_str().to_lowercase();
        Environment::from_name(lowered.as_str())
    }
}

} // verus!
