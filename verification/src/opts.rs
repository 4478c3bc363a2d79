//! The configuration record and the rules that it has to meet before any
//! work starts.

use vstd::prelude::*;
use vstd::string::*;
use std::path::PathBuf;
use crate::path::{path_as_str, path_from_string, path_text};
use crate::text::{
    decimal, decimal_string, lemma_parse_decimal, parse_u8, parse_u8_text, same_text,
};

verus! {

/// `url::Url`, a parsed address, which passes through this crate unread.
#[verifier::external_type_specification]
#[verifier::external_body]
pub struct ExUrl(url::Url);

/// The engine that produces the review.
#[derive(Clone, Copy, Debug, PartialEq, Eq, Structural)]
pub enum Backend {
    Mortal,
    Akochan,
}

impl Backend {
    /// The backend's name as it is shown and as it stands in file names.
    pub open spec fn spec_name(self) -> Seq<char> {
        match self {
            Backend::Mortal => "mortal"@,
            Backend::Akochan => "akochan"@,
        }
    }

    /// The backend's name as it stands in a rendering context.
    pub open spec fn spec_variant_name(self) -> Seq<char> {
        match self {
            Backend::Mortal => "Mortal"@,
            Backend::Akochan => "Akochan"@,
        }
    }

    /// The backend's name as it stands in a rendering context.
    pub fn variant_name(&self) -> (r: &'static str)
        ensures
            r@ == self.spec_variant_name(),
    {
        match self {
            Backend::Mortal => "Mortal",
            Backend::Akochan => "Akochan",
        }
    }

    /// The backend's name as it is shown and as it stands in file names.
    pub fn to_string(&self) -> (r: String)
        ensures
            r@ == self.spec_name(),
    {
        match self {
            Backend::Mortal => "mortal".to_owned(),
            Backend::Akochan => "akochan".to_owned(),
        }
    }
}

/// A backend's name is written in lower case letters only.
pub proof fn lemma_backend_name_lowercase(backend: Backend)
    ensures
        backend.spec_name().len() > 0,
        forall|i: int|
            0 <= i < backend.spec_name().len() ==> 'a' <= #[trigger] backend.spec_name()[i] <= 'z',
{
    reveal_strlit("mortal");
    reveal_strlit("akochan");
}

/// What reading `s` as a player's seat comes to: the seat, or the message
/// that echoes `s` and says which seats there are.
pub open spec fn parse_player_id_result(s: Seq<char>) -> Result<u8, Seq<char>> {
    match parse_u8(s) {
        None => Err(s + " is not a number within 0-3"@),
        Some(id) => if id >= 4 {
            Err(s + " is not within 0-3"@)
        } else {
            Ok(id)
        },
    }
}

/// A seat written as a numeral is accepted if it is within 0-3. A larger
/// number is rejected in a message that begins with the numeral.
pub proof fn lemma_parse_player_id_of_numeral(n: nat)
    ensures
        parse_player_id_result(decimal(n)) == if n < 4 {
            Ok::<u8, Seq<char>>(n as u8)
        } else if n <= 255 {
            Err::<u8, Seq<char>>(decimal(n) + " is not within 0-3"@)
        } else {
            Err::<u8, Seq<char>>(decimal(n) + " is not a number within 0-3"@)
        },
{
    lemma_parse_decimal(n);
}

/// Every rejection begins with the text that was given and ends with the
/// range that a seat has to be in.
pub proof fn lemma_rejection_names_input_and_range(s: Seq<char>)
    ensures
        parse_player_id_result(s) matches Err(message) ==> message.len() >= s.len() + 10
            && message.subrange(0, s.len() as int) == s && message.subrange(
            message.len() - 10,
            message.len() as int,
        ) == "within 0-3"@,
{
    reveal_strlit(" is not a number within 0-3");
    reveal_strlit(" is not within 0-3");
    reveal_strlit("within 0-3");
    match parse_player_id_result(s) {
        Err(message) => {
            assert(message.subrange(0, s.len() as int) =~= s);
            assert(message.subrange(message.len() - 10, message.len() as int) =~= "within 0-3"@);
        },
        Ok(_) => {},
    }
}

/// What [`parse_player_id`] returned, as mathematics.
pub open spec fn player_id_outcome(r: Result<u8, String>) -> Result<u8, Seq<char>> {
    match r {
        Ok(id) => Ok(id),
        Err(message) => Err(message@),
    }
}

/// Reads `s` as a player's seat, which is a number within 0-3.
pub fn parse_player_id(s: &str) -> (r: Result<u8, String>)
    ensures
        player_id_outcome(r) == parse_player_id_result(s@),
{
    match parse_u8_text(s) {
        None => {
            let mut message = s.to_owned();
            message.append(" is not a number within 0-3");
            Err(message)
        },
        Some(id) => {
            if id >= 4 {
                let mut message = s.to_owned();
                message.append(" is not within 0-3");
                Err(message)
            } else {
                Ok(id)
            }
        },
    }
}

/// The ways to say which log to review. At most one may be given.
#[derive(Debug)]
pub struct InputOptions {
    /// A log file.
    pub in_file: Option<PathBuf>,
    /// The identifier of a log on the remote service.
    pub tenhou_id: Option<String>,
    /// The address of a log on the remote service.
    pub url: Option<url::Url>,
}

impl InputOptions {
    /// How many input methods are given.
    pub open spec fn spec_count(&self) -> nat {
        let in_file: nat = if self.in_file is Some {
            1
        } else {
            0
        };
        let tenhou_id: nat = if self.tenhou_id is Some {
            1
        } else {
            0
        };
        let url: nat = if self.url is Some {
            1
        } else {
            0
        };
        in_file + tenhou_id + url
    }

    /// How many input methods are given.
    pub fn count(&self) -> (n: u8)
        ensures
            n == self.spec_count(),
    {
        let mut n: u8 = 0;
        if self.in_file.is_some() {
            n = n + 1;
        }
        if self.tenhou_id.is_some() {
            n = n + 1;
        }
        if self.url.is_some() {
            n = n + 1;
        }
        n
    }
}

/// Where the report goes.
#[derive(Debug, PartialEq, Eq)]
pub enum OutputTarget {
    /// To a file named after the log source.
    Derived,
    /// To standard output.
    Stdout,
    /// To the file of this path.
    File(PathBuf),
}

/// What to write, where, and how.
#[derive(Debug)]
pub struct OutputOptions {
    /// The report file: empty for a name derived from the log source, `-` for
    /// standard output.
    pub out_file: Option<PathBuf>,
    /// Where to save the log as it was downloaded.
    pub tenhou_out: Option<PathBuf>,
    /// Where to save the converted log.
    pub mjai_out: Option<PathBuf>,
    /// Write the review as JSON, not as HTML.
    pub json: bool,
    /// Leave the log viewer out of the report.
    pub without_log_viewer: bool,
    /// Leave the players' names out of the report.
    pub anonymous: bool,
    /// Do not open the report once it is written.
    pub no_open: bool,
}

impl OutputOptions {
    /// Where the report goes: no path and the empty path ask for a derived
    /// name, the path `-` for standard output, any other path for itself.
    pub open spec fn spec_report_target(&self) -> OutputTarget {
        match self.out_file {
            None => OutputTarget::Derived,
            Some(path) => if path_text(path) == Some(Seq::<char>::empty()) {
                OutputTarget::Derived
            } else if path_text(path) == Some("-"@) {
                OutputTarget::Stdout
            } else {
                OutputTarget::File(path)
            },
        }
    }

    /// Where the report goes.
    pub fn report_target(&self) -> (r: OutputTarget)
        ensures
            r == self.spec_report_target(),
    {
        match &self.out_file {
            None => OutputTarget::Derived,
            Some(path) => {
                match path_as_str(path) {
                    None => OutputTarget::File(path.clone()),
                    Some(text) => {
                        if text.unicode_len() == 0 {
                            assert(text@ =~= Seq::<char>::empty());
                            OutputTarget::Derived
                        } else if same_text(text, "-") {
                            OutputTarget::Stdout
                        } else {
                            OutputTarget::File(path.clone())
                        }
                    },
                }
            },
        }
    }
}

/// Where the first backend is installed.
#[derive(Debug)]
pub struct MortalOptions {
    /// The executable.
    pub mortal_exe: PathBuf,
    /// The configuration file.
    pub mortal_cfg: PathBuf,
}

impl Default for MortalOptions {
    /// The executable and its configuration file under `./mortal`.
    fn default() -> (r: MortalOptions)
        ensures
            path_text(r.mortal_exe) == Some("./mortal/mortal"@),
            path_text(r.mortal_cfg) == Some("./mortal/config.toml"@),
    {
        MortalOptions {
            mortal_exe: path_from_string("./mortal/mortal".to_owned()),
            mortal_cfg: path_from_string("./mortal/config.toml".to_owned()),
        }
    }
}

/// Where the second backend is installed.
#[derive(Debug)]
pub struct AkochanOptions {
    /// The directory of the engine.
    pub akochan_dir: PathBuf,
    /// The tactics file.
    pub akochan_tactics: PathBuf,
}

impl Default for AkochanOptions {
    /// The directory `./akochan` and the tactics file in it.
    fn default() -> (r: AkochanOptions)
        ensures
            path_text(r.akochan_dir) == Some("./akochan"@),
            path_text(r.akochan_tactics) == Some("./akochan/tactics.json"@),
    {
        AkochanOptions {
            akochan_dir: path_from_string("./akochan".to_owned()),
            akochan_tactics: path_from_string("./akochan/tactics.json".to_owned()),
        }
    }
}

/// A rule that a configuration breaks.
#[derive(Clone, Copy, Debug, PartialEq, Eq, Structural)]
pub enum Violation {
    /// More than one input method is given: those marked.
    ConflictingInputs { in_file: bool, tenhou_id: bool, url: bool },
    /// A review is asked for, or a backend is given, and no input method is.
    MissingInput,
    /// The player's seat is not within 0-3.
    PlayerIdOutOfRange { player_id: u8 },
    /// The player is given both by seat and by name.
    ConflictingPlayerSelection,
    /// A review is asked for and no backend is given.
    MissingBackend,
}

impl Violation {
    /// The message that names what breaks the rule.
    pub open spec fn spec_message(self) -> Seq<char> {
        match self {
            Violation::ConflictingInputs { in_file, tenhou_id, url } => {
                "only one input method may be given, found:"@ + (if in_file {
                    " --in-file"@
                } else {
                    Seq::<char>::empty()
                }) + (if tenhou_id {
                    " --tenhou-id"@
                } else {
                    Seq::<char>::empty()
                }) + (if url {
                    " --url"@
                } else {
                    Seq::<char>::empty()
                })
            },
            Violation::MissingInput => "one of --in-file, --tenhou-id and --url is required"@,
            Violation::PlayerIdOutOfRange { player_id } => decimal(player_id as nat)
                + " is not within 0-3"@,
            Violation::ConflictingPlayerSelection => "--player-id cannot be used with --player-name"@,
            Violation::MissingBackend => "--backend is required unless --no-review is given"@,
        }
    }

    /// The message that names what breaks the rule.
    pub fn message(&self) -> (r: String)
        ensures
            r@ == self.spec_message(),
    {
        match self {
            Violation::ConflictingInputs { in_file, tenhou_id, url } => {
                let mut r = "only one input method may be given, found:".to_owned();
                if *in_file {
                    r.append(" --in-file");
                }
                if *tenhou_id {
                    r.append(" --tenhou-id");
                }
                if *url {
                    r.append(" --url");
                }
                proof {
                    assert(r@ =~= self.spec_message());
                }
                r
            },
            Violation::MissingInput => "one of --in-file, --tenhou-id and --url is required".to_owned(),
            Violation::PlayerIdOutOfRange { player_id } => {
                let mut r = decimal_string(*player_id as u64);
                r.append(" is not within 0-3");
                r
            },
            Violation::ConflictingPlayerSelection => "--player-id cannot be used with --player-name".to_owned(),
            Violation::MissingBackend => "--backend is required unless --no-review is given".to_owned(),
        }
    }
}

/// The player to review, as the configuration gives it.
#[derive(Debug, PartialEq, Eq)]
pub enum PlayerSelection<'a> {
    /// By seat.
    Id(u8),
    /// By display name.
    Name(&'a str),
    /// Not at all.
    Unspecified,
}

/// The whole configuration.
#[derive(Debug)]
pub struct Options {
    /// The seat of the player to review, a number within 0-3.
    pub player_id: Option<u8>,
    /// The display name of the player to review.
    pub player_name: Option<String>,
    pub input_opts: InputOptions,
    pub output_opts: OutputOptions,
    /// The rounds to review, such as `E1,E4,S3.1`; all of them if empty.
    pub kyokus: Option<String>,
    /// Do not review, only download and save.
    pub no_review: bool,
    /// Print verbose logs.
    pub verbose: bool,
    /// The backend to review with.
    pub backend: Option<Backend>,
    pub mortal_opts: MortalOptions,
    pub akochan_opts: AkochanOptions,
}

/// The list of at most one violation.
pub open spec fn listed(v: Option<Violation>) -> Seq<Violation> {
    match v {
        Some(violation) => seq![violation],
        None => Seq::empty(),
    }
}

impl Options {
    /// The first rule: at most one input method, and one where a review is
    /// asked for or a backend is given.
    pub open spec fn input_violation(&self) -> Option<Violation> {
        if self.input_opts.spec_count() >= 2 {
            Some(
                Violation::ConflictingInputs {
                    in_file: self.input_opts.in_file is Some,
                    tenhou_id: self.input_opts.tenhou_id is Some,
                    url: self.input_opts.url is Some,
                },
            )
        } else if self.input_opts.spec_count() == 0 && (self.backend is Some || !self.no_review) {
            Some(Violation::MissingInput)
        } else {
            None
        }
    }

    /// The second rule: a seat is within 0-3.
    pub open spec fn player_id_violation(&self) -> Option<Violation> {
        match self.player_id {
            Some(player_id) => if player_id >= 4 {
                Some(Violation::PlayerIdOutOfRange { player_id })
            } else {
                None
            },
            None => None,
        }
    }

    /// The third rule: the player is given by seat or by name, not by both.
    pub open spec fn player_selection_violation(&self) -> Option<Violation> {
        if self.player_id is Some && self.player_name is Some {
            Some(Violation::ConflictingPlayerSelection)
        } else {
            None
        }
    }

    /// The fourth rule: a review needs a backend.
    pub open spec fn backend_violation(&self) -> Option<Violation> {
        if self.backend is None && !self.no_review {
            Some(Violation::MissingBackend)
        } else {
            None
        }
    }

    /// Every rule that the configuration breaks, in the order of the rules.
    pub open spec fn violations(&self) -> Seq<Violation> {
        listed(self.input_violation()) + listed(self.player_id_violation()) + listed(
            self.player_selection_violation(),
        ) + listed(self.backend_violation())
    }

    /// Whether the configuration breaks no rule.
    pub open spec fn is_valid(&self) -> bool {
        self.violations().len() == 0
    }

    /// Every rule that the configuration breaks, in the order of the rules.
    pub fn validate(&self) -> (r: Vec<Violation>)
        ensures
            r@ == self.violations(),
    {
        let mut r: Vec<Violation> = Vec::new();
        let inputs = self.input_opts.count();
        if inputs >= 2 {
            r.push(
                Violation::ConflictingInputs {
                    in_file: self.input_opts.in_file.is_some(),
                    tenhou_id: self.input_opts.tenhou_id.is_some(),
                    url: self.input_opts.url.is_some(),
                },
            );
        } else if inputs == 0 && (self.backend.is_some() || !self.no_review) {
            r.push(Violation::MissingInput);
        }
        if let Some(player_id) = self.player_id {
            if player_id >= 4 {
                r.push(Violation::PlayerIdOutOfRange { player_id });
            }
        }
        if self.player_id.is_some() && self.player_name.is_some() {
            r.push(Violation::ConflictingPlayerSelection);
        }
        if self.backend.is_none() && !self.no_review {
            r.push(Violation::MissingBackend);
        }
        proof {
            assert(r@ =~= self.violations());
        }
        r
    }

    /// Accepts the configuration, or rejects it for the first rule that it
    /// breaks.
    pub fn check(&self) -> (r: Result<(), Violation>)
        ensures
            match r {
                Ok(_) => self.is_valid(),
                Err(violation) => !self.is_valid() && violation == self.violations()[0],
            },
    {
        let found = self.validate();
        if found.len() == 0 {
            Ok(())
        } else {
            Err(found[0])
        }
    }

    /// The player to review: by seat where a seat is given, else by name
    /// where a name is given.
    pub fn player_selection(&self) -> (r: PlayerSelection<'_>)
        ensures
            match self.player_id {
                Some(id) => r == PlayerSelection::Id(id),
                None => match self.player_name {
                    Some(name) => r matches PlayerSelection::Name(text) && text@ == name@,
                    None => r == PlayerSelection::Unspecified,
                },
            },
    {
        match self.player_id {
            Some(id) => PlayerSelection::Id(id),
            None => match &self.player_name {
                Some(name) => PlayerSelection::Name(name.as_str()),
                None => PlayerSelection::Unspecified,
            },
        }
    }
}

/// Two or more input methods at once are rejected, first of all, and the
/// violation names them.
pub proof fn lemma_conflicting_inputs_rejected(options: Options)
    requires
        options.input_opts.spec_count() >= 2,
    ensures
        !options.is_valid(),
        options.violations()[0] == (Violation::ConflictingInputs {
            in_file: options.input_opts.in_file is Some,
            tenhou_id: options.input_opts.tenhou_id is Some,
            url: options.input_opts.url is Some,
        }),
{
}

/// A seat of 4 or more is rejected, and the violation names it.
pub proof fn lemma_player_id_out_of_range_rejected(options: Options, player_id: u8)
    requires
        options.player_id == Some(player_id),
        player_id >= 4,
    ensures
        !options.is_valid(),
        options.violations().contains(Violation::PlayerIdOutOfRange { player_id }),
{
    let before = listed(options.input_violation());
    let found = options.violations();
    assert(found[before.len() as int] == Violation::PlayerIdOutOfRange { player_id });
}

/// A backend without an input method is rejected, first of all.
pub proof fn lemma_backend_without_input_rejected(options: Options)
    requires
        options.backend is Some,
        options.input_opts.spec_count() == 0,
    ensures
        !options.is_valid(),
        options.violations()[0] == Violation::MissingInput,
{
}

/// Without a review no backend is needed, and without either no input method:
/// such a configuration is accepted unless it gives several input methods, a
/// seat out of range, or the player both by seat and by name.
pub proof fn lemma_no_review_without_backend_accepted(options: Options)
    requires
        options.no_review,
        options.backend is None,
    ensures
        options.backend_violation() is None,
        !options.violations().contains(Violation::MissingBackend),
        !options.violations().contains(Violation::MissingInput),
        options.is_valid() <==> options.input_opts.spec_count() <= 1
            && options.player_id_violation() is None
            && options.player_selection_violation() is None,
{
}

} // verus!
