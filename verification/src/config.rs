use vstd::prelude::*;
use std::path::PathBuf;
use url::{ParseError, Url};

verus! {

#[verifier::external_type_specification]
#[verifier::external_body]
pub struct ExUrl(url::Url);

#[verifier::external_type_specification]
#[verifier::external_body]
pub struct ExParseError(url::ParseError);

#[verifier::external_type_specification]
#[verifier::external_body]
pub struct ExPathBuf(std::path::PathBuf);

/// What `Url::parse` gives for `input`.
pub uninterp spec fn parsed_url(input: Seq<char>) -> Result<Url, ParseError>;

/// Calls `Url::parse`, a function of its input alone, named by `parsed_url`.
#[verifier::external_body]
fn parse_url(input: &str) -> (r: Result<Url, ParseError>)
    ensures
        r == parsed_url(input@),
{
    Url::parse(input)
}

/// What `PathBuf::push` makes of the path `base` with the component `name`,
/// under the path rules of the target the crate is built for.
pub uninterp spec fn pushed_path(base: PathBuf, name: Seq<char>) -> PathBuf;

/// Calls `PathBuf::push`, which appends `name` to the path by the target's path
/// rules (a function of the path and `name` alone), named by `pushed_path`.
#[verifier::external_body]
fn push_path(path: &mut PathBuf, name: &str)
    ensures
        *final(path) == pushed_path(*old(path), name@),
{
    path.push(name)
}

/// The file name of the database inside the data directory.
pub open spec fn db_file_name() -> Seq<char> {
    "db.sqlite"@
}

/// The port on which the API listens when none is configured.
pub const DEFAULT_LISTEN_PORT: u16 = 10200;

/// The node queried when none is configured.
pub open spec fn default_seed_url() -> Seq<char> {
    "http://127.0.0.1:18081"@
}

/// The configuration that the server runs with.
pub struct Config {
    /// The path of the database.
    pub db_path: PathBuf,
    /// The port on which the API listens for incoming connections.
    pub listen_port: u16,
    /// The nodes to query.
    pub seednodes: Vec<Url>,
}

impl Config {
    /// The default configuration given the result of parsing the URL of the
    /// local node: the database `db.sqlite` in `data_dir`, the API on port
    /// 10200, and the parsed URL as the only seed; a parse error is handed back.
    pub fn with_seed(data_dir: PathBuf, seed: Result<Url, ParseError>) -> (r: Result<Config, ParseError>)
        ensures
            r is Ok <==> seed is Ok,
            r matches Ok(c) ==> {
                &&& c.db_path == pushed_path(data_dir, db_file_name())
                &&& c.listen_port == DEFAULT_LISTEN_PORT
                &&& c.seednodes@ == seq![seed->Ok_0]
            },
            r matches Err(e) ==> seed == Err::<Url, ParseError>(e),
    {
        let mut db_path = data_dir;
        push_path(&mut db_path, "db.sqlite");
        match seed {
            Ok(url) => {
                let mut seednodes: Vec<Url> = Vec::new();
                seednodes.push(url);
                assert(seednodes@ =~= seq![seed->Ok_0]);
                Ok(Config { db_path, listen_port: DEFAULT_LISTEN_PORT, seednodes })
            },
            Err(e) => Err(e),
        }
    }

    /// The default configuration, with the database `db.sqlite` in `data_dir`:
    /// the API on port 10200 and the local node as the only seed. It fails only
    /// if the URL of the local node does not parse.
    pub fn defaults_in(data_dir: PathBuf) -> (r: Result<Config, ParseError>)
        ensures
            r is Ok <==> parsed_url(default_seed_url()) is Ok,
            r matches Ok(c) ==> {
                &&& c.db_path == pushed_path(data_dir, db_file_name())
                &&& c.listen_port == DEFAULT_LISTEN_PORT
                &&& c.seednodes@ == seq![parsed_url(default_seed_url())->Ok_0]
            },
            r matches Err(e) ==> e == parsed_url(default_seed_url())->Err_0,
    {
        let seed = parse_url("http://127.0.0.1:18081");
        Self::with_seed(data_dir, seed)
    }
}

} // verus!
