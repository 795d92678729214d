//! The configuration: which pairs of secret-store locators hold the keys.
//!
//! The file is TOML, one table per key pair, each with exactly the two
//! string fields `privkey` and `pubkey`:
//!
//! ```toml
//! [email]
//! privkey = "email/private"
//! pubkey = "email/public"
//! ```

use vstd::prelude::*;
use vstd::string::StrSliceExecFns;
use vstd::string::StringSliceAdditionalSpecFns;

use crate::cache::KeyLocatorPair;

verus! {

#[verifier::external_type_specification]
#[verifier::external_body]
pub struct ExTomlError(toml::de::Error);

#[verifier::external_type_specification]
#[verifier::external_body]
pub struct ExIoError(std::io::Error);

/// Why no configuration could be had.
#[derive(Debug)]
pub enum ConfigError {
    /// The file could not be read.
    IOError(std::io::Error),
    /// The file is not TOML.
    ParseError(toml::de::Error),
    /// The file is TOML, but not a list of key pairs.
    ConfigurationError,
    /// The file nests brackets, or dotted keys, too deeply to be read
    /// safely.
    NestingTooDeep,
}

impl ConfigError {
    /// A sentence that says what went wrong.
    pub fn describe(&self) -> (r: String)
        ensures
            r@ == match self {
                ConfigError::IOError(_) => "Something went wrong trying to load the config file."@,
                ConfigError::ParseError(_) => "Something went wrong parsing the configuration file."@,
                ConfigError::ConfigurationError => "The software seems to be misconfigured."@,
                ConfigError::NestingTooDeep => "The configuration file nests too deeply."@,
            },
    {
        match self {
            ConfigError::IOError(_) => String::from_str(
                "Something went wrong trying to load the config file.",
            ),
            ConfigError::ParseError(_) => String::from_str(
                "Something went wrong parsing the configuration file.",
            ),
            ConfigError::ConfigurationError => String::from_str(
                "The software seems to be misconfigured.",
            ),
            ConfigError::NestingTooDeep => String::from_str(
                "The configuration file nests too deeply.",
            ),
        }
    }
}

/// The value of a field of a key-pair table, as far as the rules read it.
#[derive(Debug)]
pub enum FieldValue {
    /// A string.
    Text(String),
    /// Anything else: a number, a table, an array...
    Other,
}

/// A field of a key-pair table as plain values: its name, and its text
/// where it is a string.
pub type FieldModel = (Seq<char>, Option<Seq<char>>);

/// The plain value of a field.
pub open spec fn field_model(f: (String, FieldValue)) -> FieldModel {
    (f.0@, match f.1 {
        FieldValue::Text(s) => Some(s@),
        FieldValue::Other => None,
    })
}

/// The plain values of the fields of a table.
pub open spec fn fields_view(f: Seq<(String, FieldValue)>) -> Seq<FieldModel> {
    f.map_values(|x: (String, FieldValue)| field_model(x))
}

/// The plain values of the top-level entries: `None` for one that is not a
/// table.
pub open spec fn entries_view(e: Seq<Option<Vec<(String, FieldValue)>>>) -> Seq<Option<Seq<FieldModel>>> {
    e.map_values(
        |x: Option<Vec<(String, FieldValue)>>|
            match x {
                Some(f) => Some(fields_view(f@)),
                None => None,
            },
    )
}

/// The top-level entries of a TOML document, in the order of the file:
/// for each, the fields of its table, or `None` where it is not a table.
/// `None` where the text is not TOML.
pub uninterp spec fn toml_tables(raw: Seq<char>) -> Option<Seq<Option<Seq<FieldModel>>>>;

/// The locators of a key-pair table: it has exactly the two fields
/// `privkey` and `pubkey`, both strings. `None` otherwise.
pub open spec fn entry_pair(fields: Seq<FieldModel>) -> Option<(Seq<char>, Seq<char>)> {
    if fields.len() != 2 {
        None
    } else if fields[0].0 == "privkey"@ && fields[1].0 == "pubkey"@ {
        match (fields[0].1, fields[1].1) {
            (Some(p), Some(q)) => Some((p, q)),
            _ => None,
        }
    } else if fields[0].0 == "pubkey"@ && fields[1].0 == "privkey"@ {
        match (fields[1].1, fields[0].1) {
            (Some(p), Some(q)) => Some((p, q)),
            _ => None,
        }
    } else {
        None
    }
}

/// Whether every top-level entry is a valid key-pair table.
pub open spec fn entries_valid(entries: Seq<Option<Seq<FieldModel>>>) -> bool {
    forall|i: int|
        0 <= i < entries.len() ==> (#[trigger] entries[i] matches Some(f) && entry_pair(f) is Some)
}

/// The locator pair of a valid entry.
pub open spec fn entry_locators(e: Option<Seq<FieldModel>>) -> (Seq<char>, Seq<char>) {
    match e {
        Some(f) => entry_pair(f).unwrap(),
        None => (seq![], seq![]),
    }
}

/// Whether `c` is the configuration that the entries give.
pub open spec fn config_of(c: Config, entries: Seq<Option<Seq<FieldModel>>>) -> bool {
    &&& c.keypairs@.len() == entries.len()
    &&& forall|i: int|
        0 <= i < entries.len() ==> ((#[trigger] c.keypairs@[i]).private_key_locator@,
        c.keypairs@[i].public_key_locator@) == entry_locators(entries[i])
}

/// How deeply a text may nest brackets, and how many dots the keys of a
/// line may hold.
pub const MAX_NESTING: usize = 64;

/// The state of a scan for nesting: bracket depth, dots counted on the
/// current line, whether the line's key has ended at an `=`, the quote
/// that is open in the key (0 for none), and whether the last character
/// was a backslash inside that quote.
pub struct NestScan {
    pub depth: nat,
    pub dots: nat,
    pub eq: bool,
    pub quote: u8,
    pub escaped: bool,
}

/// One byte of the scan. Every `[` and `{` nests one level deeper, and
/// every `]` and `}` one level back. A dot counts where it may join the
/// parts of a dotted key: in a line's key, before the first `=` outside
/// quotes, or anywhere inside brackets. A line feed starts a new line.
pub open spec fn nest_step(s: NestScan, c: u8) -> NestScan {
    let depth = if c == 91 || c == 123 {
        s.depth + 1
    } else if c == 93 || c == 125 {
        if s.depth > 0 {
            (s.depth - 1) as nat
        } else {
            0
        }
    } else {
        s.depth
    };
    let dots = if c == 46 && (!s.eq || s.depth > 0) {
        s.dots + 1
    } else {
        s.dots
    };
    if c == 10 {
        NestScan { depth, dots: 0, eq: false, quote: 0, escaped: false }
    } else if s.eq {
        NestScan { depth, dots, eq: true, quote: 0, escaped: false }
    } else if s.quote != 0 {
        if s.escaped {
            NestScan { depth, dots, eq: false, quote: s.quote, escaped: false }
        } else if c == 92 {
            NestScan { depth, dots, eq: false, quote: s.quote, escaped: true }
        } else if c == s.quote {
            NestScan { depth, dots, eq: false, quote: 0, escaped: false }
        } else {
            NestScan { depth, dots, eq: false, quote: s.quote, escaped: false }
        }
    } else if c == 34 || c == 39 {
        NestScan { depth, dots, eq: false, quote: c, escaped: false }
    } else {
        NestScan { depth, dots, eq: c == 61, quote: 0, escaped: false }
    }
}

/// The scan of a whole text.
pub open spec fn nesting(b: Seq<u8>) -> NestScan
    decreases b.len(),
{
    if b.len() == 0 {
        NestScan { depth: 0, dots: 0, eq: false, quote: 0, escaped: false }
    } else {
        nest_step(nesting(b.drop_last()), b.last())
    }
}

/// Whether no point of the text nests `[` or `{` more than `MAX_NESTING`
/// deep (brackets inside strings count too), and no line's keys hold more
/// than `MAX_NESTING` dots.
pub open spec fn nesting_ok(b: Seq<u8>) -> bool {
    forall|i: int|
        0 <= i <= b.len() ==> (#[trigger] nesting(b.take(i))).depth <= MAX_NESTING && nesting(
            b.take(i),
        ).dots <= MAX_NESTING
}

/// Checks `nesting_ok`.
pub fn nesting_within_limit(b: &[u8]) -> (r: bool)
    ensures
        r == nesting_ok(b@),
{
    let mut d: usize = 0;
    let mut n: usize = 0;
    let mut eq = false;
    let mut quote: u8 = 0;
    let mut escaped = false;
    let mut i: usize = 0;
    assert(b@.take(0) =~= seq![]);
    while i < b.len()
        invariant
            i <= b@.len(),
            d <= MAX_NESTING,
            n <= MAX_NESTING,
            nesting(b@.take(i as int)) == (NestScan {
                depth: d as nat,
                dots: n as nat,
                eq,
                quote,
                escaped,
            }),
            forall|j: int|
                0 <= j <= i ==> (#[trigger] nesting(b@.take(j))).depth <= MAX_NESTING && nesting(
                    b@.take(j),
                ).dots <= MAX_NESTING,
        decreases b@.len() - i,
    {
        let c = b[i];
        assert(b@.take(i + 1).drop_last() =~= b@.take(i as int));
        let nd: usize = if c == 91 || c == 123 {
            d + 1
        } else if c == 93 || c == 125 {
            if d > 0 {
                d - 1
            } else {
                0
            }
        } else {
            d
        };
        let nn: usize = if c == 46 && (!eq || d > 0) {
            n + 1
        } else {
            n
        };
        if c == 10 {
            n = 0;
            eq = false;
            quote = 0;
            escaped = false;
        } else if eq {
            n = nn;
            quote = 0;
            escaped = false;
        } else if quote != 0 {
            n = nn;
            if escaped {
                escaped = false;
            } else if c == 92 {
                escaped = true;
            } else if c == quote {
                quote = 0;
            }
        } else if c == 34 || c == 39 {
            n = nn;
            quote = c;
            escaped = false;
        } else {
            n = nn;
            eq = c == 61;
            escaped = false;
        }
        d = nd;
        i = i + 1;
        assert(nesting(b@.take(i as int)) == (NestScan {
            depth: d as nat,
            dots: n as nat,
            eq,
            quote,
            escaped,
        }));
        if d > MAX_NESTING || n > MAX_NESTING {
            assert(!((nesting(b@.take(i as int))).depth <= MAX_NESTING && nesting(
                b@.take(i as int),
            ).dots <= MAX_NESTING));
            return false;
        }
    }
    true
}

/// The key pairs of the configuration, in the order of its tables.
#[derive(Debug)]
pub struct Config {
    pub keypairs: Vec<KeyLocatorPair>,
}

/// Relies on `toml::from_str` to parse a TOML document into a table, with
/// `toml::Value::as_table` and `toml::Value::as_str` to read its entries.
#[verifier::external_body]
fn parse_tables(raw: &str) -> (r: Result<Vec<Option<Vec<(String, FieldValue)>>>, toml::de::Error>)
    requires
        nesting_ok(raw.spec_bytes()),
    ensures
        match r {
            Ok(es) => toml_tables(raw@) == Some(entries_view(es@)),
            Err(_) => toml_tables(raw@) is None,
        },
{
    let doc: toml::value::Table = toml::from_str(raw)?;
    let field = |x: &toml::Value| match x.as_str() {
        Some(s) => FieldValue::Text(s.to_string()),
        None => FieldValue::Other,
    };
    Ok(doc.values().map(|v| v.as_table().map(|t| t.iter().map(|(k, x)| (k.clone(), field(x))).collect())).collect())
}

/// The locators of one key-pair table, given its fields.
pub fn keypair_from_fields(fields: &Vec<(String, FieldValue)>) -> (r: Result<KeyLocatorPair, ConfigError>)
    ensures
        match entry_pair(fields_view(fields@)) {
            Some((p, q)) => r matches Ok(k) && k.private_key_locator@ == p
                && k.public_key_locator@ == q,
            None => r matches Err(ConfigError::ConfigurationError),
        },
{
    if fields.len() != 2 {
        return Err(ConfigError::ConfigurationError);
    }
    let privkey = String::from_str("privkey");
    let pubkey = String::from_str("pubkey");
    let (a, b) = if fields[0].0 == privkey && fields[1].0 == pubkey {
        (&fields[0].1, &fields[1].1)
    } else if fields[0].0 == pubkey && fields[1].0 == privkey {
        (&fields[1].1, &fields[0].1)
    } else {
        return Err(ConfigError::ConfigurationError);
    };
    match (a, b) {
        (FieldValue::Text(p), FieldValue::Text(q)) => Ok(
            KeyLocatorPair { private_key_locator: p.clone(), public_key_locator: q.clone() },
        ),
        _ => Err(ConfigError::ConfigurationError),
    }
}

impl Config {
    /// The configuration of the given top-level entries: each must be a
    /// table (`Some` of its fields) with exactly the string fields `privkey`
    /// and `pubkey`. Any other entry makes the whole configuration an
    /// error; no pair is taken from it.
    pub fn from_entries(entries: &Vec<Option<Vec<(String, FieldValue)>>>) -> (r: Result<Config, ConfigError>)
        ensures
            entries_valid(entries_view(entries@)) <==> r is Ok,
            !entries_valid(entries_view(entries@)) ==> r matches Err(ConfigError::ConfigurationError),
            r matches Ok(c) ==> config_of(c, entries_view(entries@)),
    {
        let mut keypairs: Vec<KeyLocatorPair> = Vec::new();
        let mut i: usize = 0;
        while i < entries.len()
            invariant
                i <= entries@.len(),
                keypairs@.len() == i,
                forall|j: int| 0 <= j < i ==> (#[trigger] entries_view(entries@)[j] matches Some(f) && entry_pair(f) is Some),
                forall|j: int|
                    0 <= j < i ==> ((#[trigger] keypairs@[j]).private_key_locator@,
                    keypairs@[j].public_key_locator@) == entry_locators(entries_view(entries@)[j]),
            decreases entries@.len() - i,
        {
            let pair = match &entries[i] {
                None => {
                    assert(entries_view(entries@)[i as int] is None);
                    return Err(ConfigError::ConfigurationError);
                },
                Some(fields) => {
                    assert(entries_view(entries@)[i as int] == Some(fields_view(fields@)));
                    match keypair_from_fields(fields) {
                        Ok(p) => p,
                        Err(e) => return Err(e),
                    }
                },
            };
            keypairs.push(pair);
            i = i + 1;
        }
        Ok(Config { keypairs })
    }

    /// Reads the configuration from the text of a TOML file. Text nested too
    /// deeply is refused before it is parsed; text that is not TOML is a
    /// `ParseError`; TOML that is not a list of key-pair tables is a
    /// `ConfigurationError`, and then no pair is taken from it.
    pub fn new(raw: &str) -> (r: Result<Config, ConfigError>)
        ensures
            !nesting_ok(raw.spec_bytes()) ==> r matches Err(ConfigError::NestingTooDeep),
            nesting_ok(raw.spec_bytes()) ==> match toml_tables(raw@) {
                None => r matches Err(ConfigError::ParseError(_)),
                Some(es) => (entries_valid(es) <==> r is Ok) && (!entries_valid(es) ==> r matches Err(
                    ConfigError::ConfigurationError,
                )) && (r matches Ok(c) ==> config_of(c, es)),
            },
    {
        let bytes = raw.as_bytes_vec();
        if !nesting_within_limit(bytes.as_slice()) {
            return Err(ConfigError::NestingTooDeep);
        }
        match parse_tables(raw) {
            Err(e) => Err(ConfigError::ParseError(e)),
            Ok(entries) => Config::from_entries(&entries),
        }
    }
}

} // verus!
