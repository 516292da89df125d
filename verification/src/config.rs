//! The host's settings: stream bitrate, peer-management mode, the PIN shown
//! to viewers and the UI theme, with their JSON document.

use crate::json::{
    boolean_member, parse, parsed, read_boolean, read_text, read_unsigned, render, rendered,
    text_member, unsigned_member,
};
use rand::Rng;
use vstd::prelude::*;
use vstd::string::StringExecFns;

verus! {

/// The bitrate, in Mbps, of a host that was never configured.
pub const DEFAULT_BITRATE: u32 = 8;

/// The number of digits of a fresh PIN.
pub const PIN_LENGTH: usize = 4;

/// The decimal digit `d` as a character.
pub open spec fn digit_char(d: u8) -> char
    recommends
        d <= 9,
{
    match d {
        0 => '0',
        1 => '1',
        2 => '2',
        3 => '3',
        4 => '4',
        5 => '5',
        6 => '6',
        7 => '7',
        8 => '8',
        _ => '9',
    }
}

pub open spec fn is_digit(c: char) -> bool {
    exists|d: u8| d <= 9 && c == #[trigger] digit_char(d)
}

/// The text of a sequence of decimal digits.
pub open spec fn digits_text(digits: Seq<u8>) -> Seq<char> {
    Seq::new(digits.len(), |i: int| digit_char(digits[i]))
}

/// A PIN of `length` digits.
pub open spec fn is_pin(text: Seq<char>, length: nat) -> bool {
    text.len() == length && forall|i: int| 0 <= i < text.len() ==> is_digit(#[trigger] text[i])
}

/// `rand::Rng::gen_range` over `0..=9` on the thread's generator: some
/// number of that range. Which one is not stated.
#[verifier::external_body]
fn random_digit() -> (d: u8)
    ensures
        d <= 9,
{
    rand::thread_rng().gen_range(0..=9)
}

fn digit_text(d: u8) -> (s: &'static str)
    requires
        d <= 9,
    ensures
        s@ == seq![digit_char(d)],
{
    proof {
        reveal_strlit("0");
        reveal_strlit("1");
        reveal_strlit("2");
        reveal_strlit("3");
        reveal_strlit("4");
        reveal_strlit("5");
        reveal_strlit("6");
        reveal_strlit("7");
        reveal_strlit("8");
        reveal_strlit("9");
    }
    let s = match d {
        0 => "0",
        1 => "1",
        2 => "2",
        3 => "3",
        4 => "4",
        5 => "5",
        6 => "6",
        7 => "7",
        8 => "8",
        _ => "9",
    };
    assert(s@ =~= seq![digit_char(d)]);
    s
}

/// The PIN that a sequence of decimal digits spells.
pub fn pin_from_digits(digits: &[u8]) -> (pin: String)
    requires
        forall|i: int| 0 <= i < digits@.len() ==> digits@[i] <= 9,
    ensures
        pin@ == digits_text(digits@),
        is_pin(pin@, digits@.len()),
{
    let mut pin = String::new();
    let mut i: usize = 0;
    while i < digits.len()
        invariant
            i <= digits@.len(),
            forall|j: int| 0 <= j < digits@.len() ==> digits@[j] <= 9,
            pin@ == digits_text(digits@.subrange(0, i as int)),
        decreases digits@.len() - i,
    {
        pin.append(digit_text(digits[i]));
        i = i + 1;
        assert(pin@ =~= digits_text(digits@.subrange(0, i as int)));
    }
    assert(digits@.subrange(0, i as int) =~= digits@);
    pin
}

/// A PIN of `length` random digits.
pub fn generate_pin(length: usize) -> (pin: String)
    ensures
        is_pin(pin@, length as nat),
{
    let mut digits: Vec<u8> = Vec::new();
    while digits.len() < length
        invariant
            digits@.len() <= length,
            forall|j: int| 0 <= j < digits@.len() ==> digits@[j] <= 9,
        decreases length - digits@.len(),
    {
        let d = random_digit();
        digits.push(d);
    }
    pin_from_digits(digits.as_slice())
}

/// How many viewers the host admits, and how many of them may steer.
#[derive(Clone, Copy, Debug, PartialEq, Eq, Structural)]
pub enum PeerManagementType {
    SinglePeer,
    MultiplePeersSingleControl,
    MultiplePeersMultipleControl,
}

impl PeerManagementType {
    /// The number that stands for a mode in the settings document.
    pub open spec fn code(self) -> u32 {
        match self {
            PeerManagementType::SinglePeer => 0,
            PeerManagementType::MultiplePeersSingleControl => 1,
            PeerManagementType::MultiplePeersMultipleControl => 2,
        }
    }

    /// The mode's name, as shown to the user.
    pub open spec fn label_text(self) -> Seq<char> {
        match self {
            PeerManagementType::SinglePeer => "SinglePeer"@,
            PeerManagementType::MultiplePeersSingleControl => "MultiplePeersSingleControl"@,
            PeerManagementType::MultiplePeersMultipleControl => "MultiplePeersMultipleControl"@,
        }
    }

    /// The mode that `value` stands for. Only 0, 1 and 2 stand for one.
    pub fn from_u32(value: u32) -> (mode: PeerManagementType)
        requires
            value <= 2,
        ensures
            mode.code() == value,
    {
        if value == 0 {
            PeerManagementType::SinglePeer
        } else if value == 1 {
            PeerManagementType::MultiplePeersSingleControl
        } else {
            PeerManagementType::MultiplePeersMultipleControl
        }
    }

    /// The mode that `value` stands for, if it stands for one.
    pub fn try_from_u32(value: u32) -> (mode: Option<PeerManagementType>)
        ensures
            value <= 2 ==> mode is Some && mode->0.code() == value,
            value > 2 ==> mode is None,
    {
        if value <= 2 {
            Some(PeerManagementType::from_u32(value))
        } else {
            None
        }
    }

    pub fn to_u32(&self) -> (value: u32)
        ensures
            value == self.code(),
    {
        match self {
            PeerManagementType::SinglePeer => 0,
            PeerManagementType::MultiplePeersSingleControl => 1,
            PeerManagementType::MultiplePeersMultipleControl => 2,
        }
    }

    /// The mode's name, as shown to the user.
    pub fn label(&self) -> (text: String)
        ensures
            text@ == self.label_text(),
    {
        match self {
            PeerManagementType::SinglePeer => String::from_str("SinglePeer"),
            PeerManagementType::MultiplePeersSingleControl => String::from_str(
                "MultiplePeersSingleControl",
            ),
            PeerManagementType::MultiplePeersMultipleControl => String::from_str(
                "MultiplePeersMultipleControl",
            ),
        }
    }
}

/// A mode's number determines the mode.
pub proof fn code_is_injective(a: PeerManagementType, b: PeerManagementType)
    requires
        a.code() == b.code(),
    ensures
        a == b,
{
}

/// The host's settings.
pub struct Config {
    pub bitrate: u32,
    pub peer_management_type: PeerManagementType,
    pub pin: String,
    pub dark_mode: bool,
}

/// A `Config` with its PIN as text.
pub struct ConfigView {
    pub bitrate: u32,
    pub peer_management_type: PeerManagementType,
    pub pin: Seq<char>,
    pub dark_mode: bool,
}

impl View for Config {
    type V = ConfigView;

    open spec fn view(&self) -> ConfigView {
        ConfigView {
            bitrate: self.bitrate,
            peer_management_type: self.peer_management_type,
            pin: self.pin@,
            dark_mode: self.dark_mode,
        }
    }
}

impl Config {
    /// The settings of a host that was never configured, with a fresh PIN.
    pub fn new() -> (config: Config)
        ensures
            config.bitrate == DEFAULT_BITRATE,
            config.peer_management_type == PeerManagementType::SinglePeer,
            config.dark_mode,
            is_pin(config.pin@, PIN_LENGTH as nat),
    {
        Config::with_pin(generate_pin(PIN_LENGTH))
    }

    /// The settings of a host that was never configured, with the given PIN.
    pub fn with_pin(pin: String) -> (config: Config)
        ensures
            config@ == (ConfigView {
                bitrate: DEFAULT_BITRATE,
                peer_management_type: PeerManagementType::SinglePeer,
                pin: pin@,
                dark_mode: true,
            }),
    {
        Config {
            bitrate: DEFAULT_BITRATE,
            peer_management_type: PeerManagementType::SinglePeer,
            pin,
            dark_mode: true,
        }
    }

    /// Replaces the PIN by a fresh one.
    pub fn regenerate_pin(&mut self)
        ensures
            is_pin(final(self).pin@, PIN_LENGTH as nat),
            final(self).bitrate == old(self).bitrate,
            final(self).peer_management_type == old(self).peer_management_type,
            final(self).dark_mode == old(self).dark_mode,
    {
        self.pin = generate_pin(PIN_LENGTH);
    }
}

/// Why a settings document was not taken over, or not written.
#[derive(Clone, Copy, Debug, PartialEq, Eq, Structural)]
pub enum ConfigError {
    /// The text is not JSON.
    Syntax,
    /// The document's peer-management mode is a number that stands for none.
    UnknownPeerManagement { value: u32 },
    /// The settings could not be rendered as JSON.
    NotRendered,
}

/// The members of a settings document that the host reads. A member that
/// is missing, or is not of the type that the host expects, is `None`.
pub struct ConfigDocument {
    /// `"bitrate"`, a non-negative integer.
    pub bitrate: Option<u64>,
    /// `"peer_management_type"`, a non-negative integer.
    pub peer_management_type: Option<u64>,
    /// `"pin"`, a string.
    pub pin: Option<String>,
    /// `"dark_mode"`, a boolean.
    pub dark_mode: Option<bool>,
}

/// A `ConfigDocument` with its PIN as text.
pub struct ConfigDocumentView {
    pub bitrate: Option<u64>,
    pub peer_management_type: Option<u64>,
    pub pin: Option<Seq<char>>,
    pub dark_mode: Option<bool>,
}

impl View for ConfigDocument {
    type V = ConfigDocumentView;

    open spec fn view(&self) -> ConfigDocumentView {
        ConfigDocumentView {
            bitrate: self.bitrate,
            peer_management_type: self.peer_management_type,
            pin: match self.pin {
                Some(pin) => Some(pin@),
                None => None,
            },
            dark_mode: self.dark_mode,
        }
    }
}

/// A number of a document held in 32 bits: its low 32 bits.
pub open spec fn low_32_bits(value: u64) -> u32 {
    (value % 0x1_0000_0000) as u32
}

/// The number of the peer-management mode that a document asks for: zero
/// where it names none.
pub open spec fn mode_code(document: ConfigDocumentView) -> u32 {
    match document.peer_management_type {
        Some(value) => low_32_bits(value),
        None => 0,
    }
}

/// The mode whose number is `code`.
pub open spec fn mode_of(code: u32) -> PeerManagementType
    recommends
        code <= 2,
{
    if code == 0 {
        PeerManagementType::SinglePeer
    } else if code == 1 {
        PeerManagementType::MultiplePeersSingleControl
    } else {
        PeerManagementType::MultiplePeersMultipleControl
    }
}

/// The settings that a document gives. Each member that the document
/// lacks has its default: the default bitrate, the first mode, an empty
/// PIN, the dark theme.
pub open spec fn configured(document: ConfigDocumentView) -> ConfigView
    recommends
        mode_code(document) <= 2,
{
    ConfigView {
        bitrate: match document.bitrate {
            Some(value) => low_32_bits(value),
            None => DEFAULT_BITRATE,
        },
        peer_management_type: mode_of(mode_code(document)),
        pin: match document.pin {
            Some(pin) => pin,
            None => Seq::empty(),
        },
        dark_mode: match document.dark_mode {
            Some(value) => value,
            None => true,
        },
    }
}

/// The key of the bitrate in the settings document.
pub const BITRATE_KEY: &'static str = "bitrate";

/// The key of the peer-management mode in the settings document.
pub const PEER_MANAGEMENT_KEY: &'static str = "peer_management_type";

/// The key of the theme in the settings document.
pub const DARK_MODE_KEY: &'static str = "dark_mode";

/// The key of the PIN in the settings document.
pub const PIN_KEY: &'static str = "pin";

/// The members of a parsed settings document: the bitrate and the mode as
/// non-negative integers, the PIN as a string, the theme as a boolean.
pub open spec fn document_of(value: serde_json::Value) -> ConfigDocumentView {
    ConfigDocumentView {
        bitrate: unsigned_member(value, BITRATE_KEY@),
        peer_management_type: unsigned_member(value, PEER_MANAGEMENT_KEY@),
        pin: text_member(value, PIN_KEY@),
        dark_mode: boolean_member(value, DARK_MODE_KEY@),
    }
}

/// The JSON text of the settings, or `None` where the serialiser gives
/// none.
pub open spec fn document_text(config: ConfigView) -> Option<Seq<char>> {
    rendered(
        BITRATE_KEY@,
        config.bitrate,
        PEER_MANAGEMENT_KEY@,
        config.peer_management_type.code(),
        DARK_MODE_KEY@,
        config.dark_mode,
        PIN_KEY@,
        config.pin,
    )
}

fn low_bits(value: u64) -> (low: u32)
    ensures
        low == low_32_bits(value),
{
    (value % 0x1_0000_0000) as u32
}

impl ConfigDocument {
    /// The members of a parsed settings document.
    pub fn from_value(value: &serde_json::Value) -> (document: ConfigDocument)
        ensures
            document@ == document_of(*value),
    {
        ConfigDocument {
            bitrate: read_unsigned(value, BITRATE_KEY),
            peer_management_type: read_unsigned(value, PEER_MANAGEMENT_KEY),
            pin: read_text(value, PIN_KEY),
            dark_mode: read_boolean(value, DARK_MODE_KEY),
        }
    }

    /// The number of the peer-management mode that the document asks for.
    pub fn peer_management_code(&self) -> (code: u32)
        ensures
            code == mode_code(self@),
    {
        match self.peer_management_type {
            Some(value) => low_bits(value),
            None => 0,
        }
    }
}

impl Config {
    /// Takes over what a document gives. The document's mode must be one:
    /// `read` tests that before it calls this.
    pub fn apply(&mut self, document: &ConfigDocument)
        requires
            mode_code(document@) <= 2,
        ensures
            final(self)@ == configured(document@),
    {
        self.peer_management_type = PeerManagementType::from_u32(document.peer_management_code());
        self.bitrate = match document.bitrate {
            Some(value) => low_bits(value),
            None => DEFAULT_BITRATE,
        };
        self.pin = match &document.pin {
            Some(pin) => pin.clone(),
            None => String::new(),
        };
        self.dark_mode = match document.dark_mode {
            Some(value) => value,
            None => true,
        };
    }

    /// Reads the settings from the text of a settings document.
    ///
    /// A text that is not JSON, or whose mode is a number that stands for
    /// no mode, is refused and leaves the settings as they were.
    pub fn read(&mut self, contents: &str) -> (r: Result<(), ConfigError>)
        ensures
            match parsed(contents@) {
                None => r == Err::<(), ConfigError>(ConfigError::Syntax)
                    && final(self)@ == old(self)@,
                Some(value) => if mode_code(document_of(value)) <= 2 {
                    r is Ok && final(self)@ == configured(document_of(value))
                } else {
                    r == Err::<(), ConfigError>(
                        ConfigError::UnknownPeerManagement {
                            value: mode_code(document_of(value)),
                        },
                    ) && final(self)@ == old(self)@
                },
            },
    {
        match parse(contents) {
            Err(_) => Err(ConfigError::Syntax),
            Ok(value) => {
                let document = ConfigDocument::from_value(&value);
                let code = document.peer_management_code();
                if code <= 2 {
                    self.apply(&document);
                    Ok(())
                } else {
                    Err(ConfigError::UnknownPeerManagement { value: code })
                }
            },
        }
    }

    /// The text of the settings document that holds these settings.
    pub fn write(&self) -> (r: Result<String, ConfigError>)
        ensures
            match document_text(self@) {
                Some(text) => r is Ok && r->Ok_0@ == text,
                None => r == Err::<String, ConfigError>(ConfigError::NotRendered),
            },
    {
        match render(
            BITRATE_KEY,
            self.bitrate,
            PEER_MANAGEMENT_KEY,
            self.peer_management_type.to_u32(),
            DARK_MODE_KEY,
            self.dark_mode,
            PIN_KEY,
            self.pin.as_str(),
        ) {
            Ok(text) => Ok(text),
            Err(_) => Err(ConfigError::NotRendered),
        }
    }
}

} // verus!
