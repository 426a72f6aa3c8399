use vstd::prelude::*;

verus! {

/// How the platform joins a directory and a file name.
#[derive(Clone, Copy, Debug, PartialEq, Eq, Structural)]
pub enum PathStyle {
    /// Components are joined with `/`.
    Unix,
    /// Components are joined with `\`.
    Windows,
}

/// The separator that `style` puts between a directory and a file name.
pub open spec fn separator(style: PathStyle) -> Seq<char> {
    match style {
        PathStyle::Unix => "/"@,
        PathStyle::Windows => "\\"@,
    }
}

/// The full path of the settings file below `home`.
pub open spec fn settings_path(home: Seq<char>, style: PathStyle) -> Seq<char> {
    home + separator(style) + ".settings"@
}

/// Path of the settings file: the home directory, the platform separator and `.settings`.
pub fn get_settings_filename(home: &str, style: PathStyle) -> (filename: String)
    ensures
        filename@ == settings_path(home@, style),
{
    let sep = match style {
        PathStyle::Unix => "/",
        PathStyle::Windows => "\\",
    };
    String::from_str(home).concat(sep).concat(".settings")
}

/// Reads the service settings, from the address in `SETTINGS_URL` when it can,
/// else from the settings file in the home directory.
pub struct SettingsReader {}

/// What the outside world reported to the settings reader.
pub enum SettingsEvent {
    /// Reading has just begun.
    Started,
    /// The value of the `SETTINGS_URL` variable, when it is set.
    UrlVariable(Option<String>),
    /// Whether the request to the settings address got a response.
    UrlRequest(bool),
    /// The body of the response from the settings address.
    UrlBody(Vec<u8>),
    /// The whole content of the settings file.
    FileContent(Vec<u8>),
}

/// What the settings reader asks the outside world to do next.
pub enum SettingsAction {
    /// Read the environment variable of this name.
    ReadVariable(String),
    /// Send a request to this address.
    Fetch(String),
    /// Read the body of the response just received.
    ReadBody,
    /// Report that no settings address could be used, then read the file at this path.
    ReadFile(String),
    /// Parse these bytes as YAML settings; reading ends here.
    Parse(Vec<u8>),
}

/// A settings event over mathematical values.
pub enum SettingsEventView {
    Started,
    UrlVariable(Option<Seq<char>>),
    UrlRequest(bool),
    UrlBody(Seq<u8>),
    FileContent(Seq<u8>),
}

/// A settings action over mathematical values.
pub enum SettingsActionView {
    ReadVariable(Seq<char>),
    Fetch(Seq<char>),
    ReadBody,
    ReadFile(Seq<char>),
    Parse(Seq<u8>),
}

impl View for SettingsEvent {
    type V = SettingsEventView;

    open spec fn view(&self) -> SettingsEventView {
        match self {
            SettingsEvent::Started => SettingsEventView::Started,
            SettingsEvent::UrlVariable(v) => SettingsEventView::UrlVariable(
                match v {
                    Some(s) => Some(s@),
                    None => None,
                },
            ),
            SettingsEvent::UrlRequest(ok) => SettingsEventView::UrlRequest(*ok),
            SettingsEvent::UrlBody(b) => SettingsEventView::UrlBody(b@),
            SettingsEvent::FileContent(b) => SettingsEventView::FileContent(b@),
        }
    }
}

impl View for SettingsAction {
    type V = SettingsActionView;

    open spec fn view(&self) -> SettingsActionView {
        match self {
            SettingsAction::ReadVariable(n) => SettingsActionView::ReadVariable(n@),
            SettingsAction::Fetch(u) => SettingsActionView::Fetch(u@),
            SettingsAction::ReadBody => SettingsActionView::ReadBody,
            SettingsAction::ReadFile(p) => SettingsActionView::ReadFile(p@),
            SettingsAction::Parse(b) => SettingsActionView::Parse(b@),
        }
    }
}

/// The name of the variable that holds the settings address.
pub open spec fn settings_url_variable() -> Seq<char> {
    "SETTINGS_URL"@
}

/// The step that follows `event`: the address is tried first, and any failure to
/// use it falls back to the settings file below `home`.
pub open spec fn next_settings_action(
    event: SettingsEventView,
    home: Seq<char>,
    style: PathStyle,
) -> SettingsActionView {
    match event {
        SettingsEventView::Started => SettingsActionView::ReadVariable(settings_url_variable()),
        SettingsEventView::UrlVariable(Some(url)) => SettingsActionView::Fetch(url),
        SettingsEventView::UrlVariable(None) => SettingsActionView::ReadFile(
            settings_path(home, style),
        ),
        SettingsEventView::UrlRequest(true) => SettingsActionView::ReadBody,
        SettingsEventView::UrlRequest(false) => SettingsActionView::ReadFile(
            settings_path(home, style),
        ),
        SettingsEventView::UrlBody(body) => SettingsActionView::Parse(body),
        SettingsEventView::FileContent(content) => SettingsActionView::Parse(content),
    }
}

/// The port that the HTTP endpoint listens on when `HTTP_PORT` is not set.
pub open spec fn default_http_port() -> Seq<char> {
    "8080"@
}

impl SettingsReader {
    /// Decides the next step of reading the settings, given what just happened.
    pub fn next_action(event: SettingsEvent, home: &str, style: PathStyle) -> (action:
        SettingsAction)
        ensures
            action@ == next_settings_action(event@, home@, style),
    {
        match event {
            SettingsEvent::Started => SettingsAction::ReadVariable(String::from_str("SETTINGS_URL")),
            SettingsEvent::UrlVariable(Some(url)) => SettingsAction::Fetch(url),
            SettingsEvent::UrlVariable(None) => SettingsAction::ReadFile(
                get_settings_filename(home, style),
            ),
            SettingsEvent::UrlRequest(ok) => {
                if ok {
                    SettingsAction::ReadBody
                } else {
                    SettingsAction::ReadFile(get_settings_filename(home, style))
                }
            },
            SettingsEvent::UrlBody(body) => SettingsAction::Parse(body),
            SettingsEvent::FileContent(content) => SettingsAction::Parse(content),
        }
    }

    /// Where the service runs: the host and log names as given, the gRPC port 80 and
    /// the HTTP port 8080 unless the variables name other ports.
    pub fn read_env_settings(
        base_url: String,
        grpc_port: Option<String>,
        http_port: Option<String>,
        index: String,
        environment: String,
    ) -> (config: EnvConfig)
        ensures
            config.base_url@ == base_url@,
            config.grpc_port@ == port_or(grpc_port, default_grpc_port()),
            config.http_port@ == port_or(http_port, default_http_port()),
            config.index@ == index@,
            config.environment@ == environment@,
            grpc_port matches Some(v) ==> config.grpc_port@ == v@,
            grpc_port is None ==> config.grpc_port@ == "80"@,
            http_port matches Some(v) ==> config.http_port@ == v@,
            http_port is None ==> config.http_port@ == "8080"@,
    {
        let grpc_port = match grpc_port {
            Some(p) => p,
            None => String::from_str("80"),
        };
        let http_port = match http_port {
            Some(p) => p,
            None => String::from_str("8080"),
        };
        EnvConfig { base_url, grpc_port, http_port, index, environment }
    }
}

/// The port that the gRPC endpoint listens on when `GRPC_PORT` is not set.
pub open spec fn default_grpc_port() -> Seq<char> {
    "80"@
}

/// The port named by a variable's value, or `default` when the variable is not set.
pub open spec fn port_or(value: Option<String>, default: Seq<char>) -> Seq<char> {
    match value {
        Some(v) => v@,
        None => default,
    }
}

/// A port given in its variable is taken exactly as given, whatever it holds; only
/// an unset variable gives the default, which is 80 for gRPC and 8080 for HTTP.
pub proof fn lemma_given_port_is_kept(value: Option<String>, default: Seq<char>)
    ensures
        value matches Some(v) ==> port_or(value, default) == v@,
        value is None ==> port_or(value, default) == default,
        default_grpc_port() == "80"@,
        default_http_port() == "8080"@,
{
}

/// The settings path is the home directory, one separator character (`/` on Unix,
/// `\` on Windows) and the file name `.settings`, in that order.
pub proof fn lemma_settings_path_shape(home: Seq<char>, style: PathStyle)
    ensures
        settings_path(home, style).len() == home.len() + 10,
        settings_path(home, style).subrange(0, home.len() as int) == home,
        settings_path(home, style)[home.len() as int] == (match style {
            PathStyle::Unix => '/',
            PathStyle::Windows => '\\',
        }),
        settings_path(home, style).subrange(home.len() + 1int, home.len() + 10int) == ".settings"@,
{
    reveal_strlit("/");
    reveal_strlit("\\");
    reveal_strlit(".settings");
    let p = settings_path(home, style);
    assert(p.subrange(0, home.len() as int) =~= home);
    assert(p.subrange(home.len() + 1int, home.len() + 10int) =~= ".settings"@);
}

/// Whenever the settings address cannot be used (the variable is not set or the
/// request got no response), the settings are read from `.settings` in the home
/// directory; when it can be used, its response body is what gets parsed.
pub proof fn lemma_settings_fall_back_to_home_file(
    home: Seq<char>,
    style: PathStyle,
    url: Seq<char>,
    body: Seq<u8>,
)
    ensures
        next_settings_action(SettingsEventView::Started, home, style)
            == SettingsActionView::ReadVariable(settings_url_variable()),
        next_settings_action(SettingsEventView::UrlVariable(Some(url)), home, style)
            == SettingsActionView::Fetch(url),
        next_settings_action(SettingsEventView::UrlRequest(true), home, style)
            == SettingsActionView::ReadBody,
        next_settings_action(SettingsEventView::UrlBody(body), home, style)
            == SettingsActionView::Parse(body),
        next_settings_action(SettingsEventView::UrlVariable(None), home, style)
            == SettingsActionView::ReadFile(home + separator(style) + ".settings"@),
        next_settings_action(SettingsEventView::UrlRequest(false), home, style)
            == SettingsActionView::ReadFile(home + separator(style) + ".settings"@),
        next_settings_action(SettingsEventView::FileContent(body), home, style)
            == SettingsActionView::Parse(body),
{
}

/// Where and under which names the service runs.
pub struct EnvConfig {
    /// The host that the endpoints listen on.
    pub base_url: String,
    /// The port of the gRPC endpoint.
    pub grpc_port: String,
    /// The port of the HTTP endpoint.
    pub http_port: String,
    /// The log index that log records are filed under.
    pub index: String,
    /// The name of the environment the service runs in.
    pub environment: String,
}

} // verus!
