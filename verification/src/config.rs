//! The configuration of the application: where it is kept and what it holds
//! when the application starts for the first time.

use crate::json::{array, item_views, member_views, object, text, Json, JsonView};
use vstd::prelude::*;

verus! {

/// Whether `c` is an ASCII letter or digit.
pub open spec fn is_alphanumeric(c: char) -> bool {
    ('0' <= c <= '9') || ('a' <= c <= 'z') || ('A' <= c <= 'Z')
}

/// Whether `text` is made of `len` ASCII letters and digits.
pub open spec fn is_token(text: Seq<char>, len: nat) -> bool {
    text.len() == len && forall|i: int| 0 <= i < text.len() ==> is_alphanumeric(#[trigger] text[i])
}

/// A random text of `len` ASCII letters and digits: `sample_string` of
/// `rand::distributions::Alphanumeric`, on the generator that
/// `rand::thread_rng` gives. Which letters and digits come is left open.
/// Where the operating system gives no randomness the generator cannot be
/// made, and the call does not return.
#[verifier::external_body]
fn random_str(len: usize) -> (text: String)
    ensures
        text@.len() == len,
        forall|i: int| 0 <= i < text@.len() ==> is_alphanumeric(#[trigger] text@[i]),
{
    rand::distributions::DistString::sample_string(
        &rand::distributions::Alphanumeric,
        &mut rand::thread_rng(),
        len,
    )
}

/// The names and passwords under which the supervisor talks to its
/// sidecars.
#[derive(Debug, PartialEq, Eq)]
pub struct Credentials {
    pub rclone_user: String,
    pub rclone_password: String,
    pub openlist_user: String,
    pub openlist_password: String,
}

/// The credentials of a first start: for the file-transfer engine a random
/// name of 32 and a random password of 128 letters and digits; for the
/// file-listing engine the name `admin` and a random password of 16.
pub fn default_credentials() -> (credentials: Credentials)
    ensures
        is_token(credentials.rclone_user@, 32),
        is_token(credentials.rclone_password@, 128),
        credentials.openlist_user@ == "admin"@,
        is_token(credentials.openlist_password@, 16),
{
    Credentials {
        rclone_user: random_str(32),
        rclone_password: random_str(128),
        openlist_user: "admin".to_owned(),
        openlist_password: random_str(16),
    }
}

/// The object with the one member `name`.
fn object1(name: &str, value: Json) -> (r: Json)
    ensures
        r@ == JsonView::Object(seq![(name@, value@)]),
{
    let mut members: Vec<(String, Json)> = Vec::new();
    members.push((name.to_owned(), value));
    assert(member_views(members@) =~= seq![(name@, value@)]);
    object(members)
}

/// The object with the two members `first` and `second`.
fn object2(first: &str, first_value: Json, second: &str, second_value: Json) -> (r: Json)
    ensures
        r@ == JsonView::Object(seq![(first@, first_value@), (second@, second_value@)]),
{
    let mut members: Vec<(String, Json)> = Vec::new();
    members.push((first.to_owned(), first_value));
    members.push((second.to_owned(), second_value));
    assert(member_views(members@) =~= seq![(first@, first_value@), (second@, second_value@)]);
    object(members)
}

/// The configuration of a first start with the given credentials: no
/// mounts, no tasks, the address of the service, the automatic theme, a
/// visible window, and the credentials of the two engines.
pub open spec fn default_document(
    rclone_user: Seq<char>,
    rclone_password: Seq<char>,
    openlist_user: Seq<char>,
    openlist_password: Seq<char>,
) -> JsonView {
    JsonView::Object(
        seq![
            ("mount"@, JsonView::Object(seq![("lists"@, JsonView::Array(Seq::empty()))])),
            ("task"@, JsonView::Array(Seq::empty())),
            (
                "api"@,
                JsonView::Object(
                    seq![("url"@, JsonView::Text("https://api.hotpe.top/API/NetMount"@))],
                ),
            ),
            (
                "settings"@,
                JsonView::Object(
                    seq![
                        ("themeMode"@, JsonView::Text("auto"@)),
                        ("startHide"@, JsonView::Bool(false)),
                    ],
                ),
            ),
            (
                "framework"@,
                JsonView::Object(
                    seq![
                        (
                            "rclone"@,
                            JsonView::Object(
                                seq![
                                    ("user"@, JsonView::Text(rclone_user)),
                                    ("password"@, JsonView::Text(rclone_password)),
                                ],
                            ),
                        ),
                        (
                            "openlist"@,
                            JsonView::Object(
                                seq![
                                    ("user"@, JsonView::Text(openlist_user)),
                                    ("password"@, JsonView::Text(openlist_password)),
                                ],
                            ),
                        ),
                    ],
                ),
            ),
        ],
    )
}

/// The configuration of a first start with the given credentials.
pub fn default_config(credentials: &Credentials) -> (config: Json)
    ensures
        config@ == default_document(
            credentials.rclone_user@,
            credentials.rclone_password@,
            credentials.openlist_user@,
            credentials.openlist_password@,
        ),
{
    let none: Vec<Json> = Vec::new();
    assert(item_views(none@) =~= Seq::empty());
    let mount = object1("lists", array(none));
    let none: Vec<Json> = Vec::new();
    assert(item_views(none@) =~= Seq::empty());
    let task = array(none);
    let api = object1("url", text("https://api.hotpe.top/API/NetMount"));
    let settings = object2("themeMode", text("auto"), "startHide", Json::Bool(false));
    let rclone = object2(
        "user",
        text(credentials.rclone_user.as_str()),
        "password",
        text(credentials.rclone_password.as_str()),
    );
    let openlist = object2(
        "user",
        text(credentials.openlist_user.as_str()),
        "password",
        text(credentials.openlist_password.as_str()),
    );
    let framework = object2("rclone", rclone, "openlist", openlist);
    let ghost parts = seq![
        ("mount"@, mount@),
        ("task"@, task@),
        ("api"@, api@),
        ("settings"@, settings@),
        ("framework"@, framework@),
    ];
    let mut members: Vec<(String, Json)> = Vec::new();
    members.push(("mount".to_owned(), mount));
    members.push(("task".to_owned(), task));
    members.push(("api".to_owned(), api));
    members.push(("settings".to_owned(), settings));
    members.push(("framework".to_owned(), framework));
    assert(member_views(members@) =~= parts);
    object(members)
}

/// Whether `document` is a configuration of a first start: the default
/// document with credentials as `default_credentials` makes them.
pub open spec fn is_first_start(document: JsonView) -> bool {
    exists|user: Seq<char>, password: Seq<char>, other: Seq<char>|
        is_token(user, 32) && is_token(password, 128) && is_token(other, 16) && document
            == #[trigger] default_document(user, password, "admin"@, other)
}

/// The configuration of the application, a JSON document.
#[derive(Debug, PartialEq, Eq)]
pub struct Config(pub Json);

impl Default for Config {
    /// The configuration of a first start, with new credentials.
    fn default() -> (config: Config)
        ensures
            is_first_start(config.0@),
    {
        let credentials = default_credentials();
        let document = default_config(&credentials);
        assert(document@ == default_document(
            credentials.rclone_user@,
            credentials.rclone_password@,
            "admin"@,
            credentials.openlist_password@,
        ));
        Config(document)
    }
}

/// The directory of the application under the home directory.
pub const USER_DATA_PATH: &'static str = ".netmount";

/// The name of the configuration file.
pub const CONFIG_FILE: &'static str = "config.json";

/// Where a configuration is kept.
#[derive(Debug, PartialEq, Eq)]
pub enum ConfigLocation {
    /// In the configuration file of the application, in its directory under
    /// the home directory.
    Application,
    /// In the file at this path.
    At(String),
}

/// A location as a plain value.
pub enum LocationView {
    Application,
    At(Seq<char>),
}

impl View for ConfigLocation {
    type V = LocationView;

    open spec fn view(&self) -> LocationView {
        match self {
            ConfigLocation::Application => LocationView::Application,
            ConfigLocation::At(path) => LocationView::At(path@),
        }
    }
}

/// Where the configuration named by `path` is kept: no path, or the name of
/// the configuration file alone, means the file of the application.
pub open spec fn location_of(path: Option<Seq<char>>) -> LocationView {
    match path {
        None => LocationView::Application,
        Some(path) => if path == CONFIG_FILE@ {
            LocationView::Application
        } else {
            LocationView::At(path)
        },
    }
}

/// Where the configuration named by `path` is kept.
pub fn config_location(path: Option<&str>) -> (location: ConfigLocation)
    ensures
        location@ == location_of(
            match path {
                Some(path) => Some(path@),
                None => None,
            },
        ),
{
    match path {
        None => ConfigLocation::Application,
        Some(path) => {
            let given = path.to_owned();
            if given == CONFIG_FILE.to_owned() {
                ConfigLocation::Application
            } else {
                ConfigLocation::At(given)
            }
        },
    }
}

} // verus!
