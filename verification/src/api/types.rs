//! The records of the server directory.

use crate::text::{
    decimal, eq_ignore_ascii_case, join, lemma_join_push, push_decimal, same_text,
    same_text_ignore_ascii_case,
};
use vstd::prelude::*;

verus! {

/// Subscription tier that a server belongs to, as a filter.
#[derive(Debug, Clone, Copy, PartialEq, Eq, Structural)]
pub enum Tier {
    Free,
    Premium,
    All,
}

impl Default for Tier {
    fn default() -> (tier: Tier)
        ensures
            tier == Tier::Premium,
    {
        Tier::Premium
    }
}

impl Tier {
    /// The lower-case name of the tier.
    pub open spec fn name(self) -> Seq<char> {
        match self {
            Tier::Free => "free"@,
            Tier::Premium => "premium"@,
            Tier::All => "all"@,
        }
    }

    /// The lower-case name of the tier.
    pub fn as_str(&self) -> (name: &'static str)
        ensures
            name@ == self.name(),
    {
        match self {
            Tier::Free => "free",
            Tier::Premium => "premium",
            Tier::All => "all",
        }
    }

    /// The tier with this name.
    pub fn from_name(text: &str) -> (tier: Option<Tier>)
        ensures
            match tier {
                Some(tier) => tier.name() == text@,
                None => text@ != "free"@ && text@ != "premium"@ && text@ != "all"@,
            },
    {
        if same_text(text, "free") {
            Some(Tier::Free)
        } else if same_text(text, "premium") {
            Some(Tier::Premium)
        } else if same_text(text, "all") {
            Some(Tier::All)
        } else {
            None
        }
    }
}

/// A set of server features, one bit each.
#[derive(Debug, Clone, Copy, PartialEq, Eq, Structural)]
pub struct Features {
    pub bits: u8,
}

/// The bit of the secure core feature.
pub const SECURE_CORE: u8 = 1;

/// The bit of the Tor feature.
pub const TOR: u8 = 2;

/// The bit of the peer-to-peer feature.
pub const P2P: u8 = 4;

/// The bit of the streaming feature.
pub const STREAMING: u8 = 8;

/// The bit of the IPv6 feature.
pub const IPV6: u8 = 16;

/// All the bits that stand for a feature.
pub const ALL_FEATURES: u8 = 31;

impl View for Features {
    type V = u8;

    open spec fn view(&self) -> u8 {
        self.bits
    }
}

impl Features {
    /// The set with no feature.
    pub fn empty() -> (set: Features)
        ensures
            set@ == 0,
    {
        Features { bits: 0 }
    }

    /// The set with the given bits, if each of them stands for a feature.
    pub fn from_bits(bits: u8) -> (set: Option<Features>)
        ensures
            set is Some <==> bits & !ALL_FEATURES == 0,
            set is Some ==> set->0@ == bits,
    {
        if bits & !ALL_FEATURES == 0 {
            Some(Features { bits })
        } else {
            None
        }
    }

    /// The set with the given bits; bits that stand for no feature are dropped.
    pub fn from_bits_truncate(bits: u8) -> (set: Features)
        ensures
            set@ == bits & ALL_FEATURES,
    {
        Features { bits: bits & ALL_FEATURES }
    }

    pub fn bits(&self) -> (bits: u8)
        ensures
            bits == self@,
    {
        self.bits
    }

    /// Whether every feature of `other` is in this set.
    pub fn contains(&self, other: Features) -> (r: bool)
        ensures
            r == (self@ & other@ == other@),
    {
        self.bits & other.bits == other.bits
    }

    /// Adds the features of `other` to this set.
    pub fn insert(&mut self, other: Features)
        ensures
            final(self)@ == old(self)@ | other@,
    {
        self.bits = self.bits | other.bits;
    }
}

/// An IPv4 address, by its four octets in network order.
#[derive(Debug, Clone, Copy, PartialEq, Eq, Structural)]
pub struct EntryIp(pub u8, pub u8, pub u8, pub u8);

impl EntryIp {
    /// The dotted decimal notation of the address.
    pub open spec fn dotted(self) -> Seq<char> {
        join(
            seq![
                decimal(self.0 as nat),
                decimal(self.1 as nat),
                decimal(self.2 as nat),
                decimal(self.3 as nat),
            ],
            '.',
        )
    }

    /// The dotted decimal notation of the address.
    pub fn to_string(&self) -> (out: String)
        ensures
            out@ == self.dotted(),
    {
        let mut out = String::new();
        let ghost f1 = seq![decimal(self.0 as nat)];
        let ghost f2 = f1.push(decimal(self.1 as nat));
        let ghost f3 = f2.push(decimal(self.2 as nat));
        proof {
            reveal_strlit(".");
            assert("."@ =~= seq!['.']);
            lemma_join_push(f1, decimal(self.1 as nat), '.');
            lemma_join_push(f2, decimal(self.2 as nat), '.');
            lemma_join_push(f3, decimal(self.3 as nat), '.');
            assert(f3.push(decimal(self.3 as nat)) =~= seq![
                decimal(self.0 as nat),
                decimal(self.1 as nat),
                decimal(self.2 as nat),
                decimal(self.3 as nat),
            ]);
        }
        push_decimal(&mut out, self.0 as u32);
        out.append(".");
        push_decimal(&mut out, self.1 as u32);
        out.append(".");
        push_decimal(&mut out, self.2 as u32);
        out.append(".");
        push_decimal(&mut out, self.3 as u32);
        out
    }
}

/// One physical machine behind a logical server.
#[derive(Debug, Clone, Copy, PartialEq, Eq, Structural)]
pub struct Server {
    pub entry_ip: EntryIp,
}

/// A record of the server directory.
#[derive(Debug)]
pub struct LogicalServer {
    pub name: String,
    pub exit_country: Country,
    pub tier: u8,
    pub features: Features,
    /// Rank of the server's score: ordered as the scores are, lower is
    /// faster.
    pub score: u64,
    pub id: String,
    pub status: u8,
    pub servers: Vec<Server>,
    pub load: u8,
}

pub struct LogicalServerView {
    pub name: Seq<char>,
    pub exit_country: Country,
    pub tier: u8,
    pub features: u8,
    pub score: u64,
    pub id: Seq<char>,
    pub status: u8,
    pub entry_ips: Seq<EntryIp>,
    pub load: u8,
}

impl View for LogicalServer {
    type V = LogicalServerView;

    open spec fn view(&self) -> LogicalServerView {
        LogicalServerView {
            name: self.name@,
            exit_country: self.exit_country,
            tier: self.tier,
            features: self.features@,
            score: self.score,
            id: self.id@,
            status: self.status,
            entry_ips: Seq::new(self.servers@.len(), |i: int| self.servers@[i].entry_ip),
            load: self.load,
        }
    }
}

impl Clone for LogicalServer {
    fn clone(&self) -> (copy: LogicalServer)
        ensures
            copy@ == self@,
    {
        let mut servers: Vec<Server> = Vec::new();
        let mut i: usize = 0;
        while i < self.servers.len()
            invariant
                i <= self.servers.len(),
                servers@ == self.servers@.take(i as int),
            decreases self.servers.len() - i,
        {
            servers.push(self.servers[i]);
            assert(servers@ =~= self.servers@.take(i + 1));
            i += 1;
        }
        assert(servers@ =~= self.servers@);
        let copy = LogicalServer {
            name: self.name.clone(),
            exit_country: self.exit_country,
            tier: self.tier,
            features: self.features,
            score: self.score,
            id: self.id.clone(),
            status: self.status,
            servers,
            load: self.load,
        };
        assert(copy@.entry_ips =~= self@.entry_ips);
        copy
    }
}

/// Country codes of the directory.
#[derive(Debug, PartialEq, Eq, Clone, Copy, Structural)]
pub enum Country {
    BD, BE, BF, BG, BA, BB, WF, BL, BM, BN, BO, BH,
    BI, BJ, BT, JM, BV, BW, WS, BQ, BR, BS, JE, BY,
    BZ, RU, RW, RS, TL, RE, TM, TJ, RO, TK, GW, GU,
    GT, GS, GR, GQ, GP, JP, GY, GG, GF, GE, GD, UK,
    GA, SV, GN, GM, GL, GI, GH, OM, TN, JO, HR, HT,
    HU, HK, HN, HM, VE, PR, PS, PW, PT, SJ, PY, IQ,
    PA, PF, PG, PE, PK, PH, PN, PL, PM, ZM, EH, EE,
    EG, ZA, EC, IT, VN, SB, ET, SO, ZW, SA, ES, ER,
    ME, MD, MG, MF, MA, MC, UZ, MM, ML, MO, MN, MH,
    MK, MU, MT, MW, MV, MQ, MP, MS, MR, IM, UG, TZ,
    MY, MX, IL, FR, IO, SH, FI, FJ, FK, FM, FO, NI,
    NL, NO, NA, VU, NC, NE, NF, NG, NZ, NP, NR, NU,
    CK, XK, CI, CH, CO, CN, CM, CL, CC, CA, CG, CF,
    CD, CZ, CY, CX, CR, CW, CV, CU, SZ, SY, SX, KG,
    KE, SS, SR, KI, KH, KN, KM, ST, SK, KR, SI, KP,
    KW, SN, SM, SL, SC, KZ, KY, SG, SE, SD, DO, DM,
    DJ, DK, VG, DE, YE, DZ, US, UY, YT, UM, LB, LC,
    LA, TV, TW, TT, TR, LK, LI, LV, TO, LT, LU, LR,
    LS, TH, TF, TG, TD, TC, LY, VA, VC, AE, AD, AG,
    AF, AI, VI, IS, IR, AM, AL, AO, AQ, AS, AR, AU,
    AT, AW, IN, AX, AZ, IE, ID, UA, QA, MZ,
}

impl Country {
    /// The two-letter code of the country, in capitals.
    pub open spec fn name(self) -> Seq<char> {
        match self {
            Country::BD => "BD"@,
            Country::BE => "BE"@,
            Country::BF => "BF"@,
            Country::BG => "BG"@,
            Country::BA => "BA"@,
            Country::BB => "BB"@,
            Country::WF => "WF"@,
            Country::BL => "BL"@,
            Country::BM => "BM"@,
            Country::BN => "BN"@,
            Country::BO => "BO"@,
            Country::BH => "BH"@,
            Country::BI => "BI"@,
            Country::BJ => "BJ"@,
            Country::BT => "BT"@,
            Country::JM => "JM"@,
            Country::BV => "BV"@,
            Country::BW => "BW"@,
            Country::WS => "WS"@,
            Country::BQ => "BQ"@,
            Country::BR => "BR"@,
            Country::BS => "BS"@,
            Country::JE => "JE"@,
            Country::BY => "BY"@,
            Country::BZ => "BZ"@,
            Country::RU => "RU"@,
            Country::RW => "RW"@,
            Country::RS => "RS"@,
            Country::TL => "TL"@,
            Country::RE => "RE"@,
            Country::TM => "TM"@,
            Country::TJ => "TJ"@,
            Country::RO => "RO"@,
            Country::TK => "TK"@,
            Country::GW => "GW"@,
            Country::GU => "GU"@,
            Country::GT => "GT"@,
            Country::GS => "GS"@,
            Country::GR => "GR"@,
            Country::GQ => "GQ"@,
            Country::GP => "GP"@,
            Country::JP => "JP"@,
            Country::GY => "GY"@,
            Country::GG => "GG"@,
            Country::GF => "GF"@,
            Country::GE => "GE"@,
            Country::GD => "GD"@,
            Country::UK => "UK"@,
            Country::GA => "GA"@,
            Country::SV => "SV"@,
            Country::GN => "GN"@,
            Country::GM => "GM"@,
            Country::GL => "GL"@,
            Country::GI => "GI"@,
            Country::GH => "GH"@,
            Country::OM => "OM"@,
            Country::TN => "TN"@,
            Country::JO => "JO"@,
            Country::HR => "HR"@,
            Country::HT => "HT"@,
            Country::HU => "HU"@,
            Country::HK => "HK"@,
            Country::HN => "HN"@,
            Country::HM => "HM"@,
            Country::VE => "VE"@,
            Country::PR => "PR"@,
            Country::PS => "PS"@,
            Country::PW => "PW"@,
            Country::PT => "PT"@,
            Country::SJ => "SJ"@,
            Country::PY => "PY"@,
            Country::IQ => "IQ"@,
            Country::PA => "PA"@,
            Country::PF => "PF"@,
            Country::PG => "PG"@,
            Country::PE => "PE"@,
            Country::PK => "PK"@,
            Country::PH => "PH"@,
            Country::PN => "PN"@,
            Country::PL => "PL"@,
            Country::PM => "PM"@,
            Country::ZM => "ZM"@,
            Country::EH => "EH"@,
            Country::EE => "EE"@,
            Country::EG => "EG"@,
            Country::ZA => "ZA"@,
            Country::EC => "EC"@,
            Country::IT => "IT"@,
            Country::VN => "VN"@,
            Country::SB => "SB"@,
            Country::ET => "ET"@,
            Country::SO => "SO"@,
            Country::ZW => "ZW"@,
            Country::SA => "SA"@,
            Country::ES => "ES"@,
            Country::ER => "ER"@,
            Country::ME => "ME"@,
            Country::MD => "MD"@,
            Country::MG => "MG"@,
            Country::MF => "MF"@,
            Country::MA => "MA"@,
            Country::MC => "MC"@,
            Country::UZ => "UZ"@,
            Country::MM => "MM"@,
            Country::ML => "ML"@,
            Country::MO => "MO"@,
            Country::MN => "MN"@,
            Country::MH => "MH"@,
            Country::MK => "MK"@,
            Country::MU => "MU"@,
            Country::MT => "MT"@,
            Country::MW => "MW"@,
            Country::MV => "MV"@,
            Country::MQ => "MQ"@,
            Country::MP => "MP"@,
            Country::MS => "MS"@,
            Country::MR => "MR"@,
            Country::IM => "IM"@,
            Country::UG => "UG"@,
            Country::TZ => "TZ"@,
            Country::MY => "MY"@,
            Country::MX => "MX"@,
            Country::IL => "IL"@,
            Country::FR => "FR"@,
            Country::IO => "IO"@,
            Country::SH => "SH"@,
            Country::FI => "FI"@,
            Country::FJ => "FJ"@,
            Country::FK => "FK"@,
            Country::FM => "FM"@,
            Country::FO => "FO"@,
            Country::NI => "NI"@,
            Country::NL => "NL"@,
            Country::NO => "NO"@,
            Country::NA => "NA"@,
            Country::VU => "VU"@,
            Country::NC => "NC"@,
            Country::NE => "NE"@,
            Country::NF => "NF"@,
            Country::NG => "NG"@,
            Country::NZ => "NZ"@,
            Country::NP => "NP"@,
            Country::NR => "NR"@,
            Country::NU => "NU"@,
            Country::CK => "CK"@,
            Country::XK => "XK"@,
            Country::CI => "CI"@,
            Country::CH => "CH"@,
            Country::CO => "CO"@,
            Country::CN => "CN"@,
            Country::CM => "CM"@,
            Country::CL => "CL"@,
            Country::CC => "CC"@,
            Country::CA => "CA"@,
            Country::CG => "CG"@,
            Country::CF => "CF"@,
            Country::CD => "CD"@,
            Country::CZ => "CZ"@,
            Country::CY => "CY"@,
            Country::CX => "CX"@,
            Country::CR => "CR"@,
            Country::CW => "CW"@,
            Country::CV => "CV"@,
            Country::CU => "CU"@,
            Country::SZ => "SZ"@,
            Country::SY => "SY"@,
            Country::SX => "SX"@,
            Country::KG => "KG"@,
            Country::KE => "KE"@,
            Country::SS => "SS"@,
            Country::SR => "SR"@,
            Country::KI => "KI"@,
            Country::KH => "KH"@,
            Country::KN => "KN"@,
            Country::KM => "KM"@,
            Country::ST => "ST"@,
            Country::SK => "SK"@,
            Country::KR => "KR"@,
            Country::SI => "SI"@,
            Country::KP => "KP"@,
            Country::KW => "KW"@,
            Country::SN => "SN"@,
            Country::SM => "SM"@,
            Country::SL => "SL"@,
            Country::SC => "SC"@,
            Country::KZ => "KZ"@,
            Country::KY => "KY"@,
            Country::SG => "SG"@,
            Country::SE => "SE"@,
            Country::SD => "SD"@,
            Country::DO => "DO"@,
            Country::DM => "DM"@,
            Country::DJ => "DJ"@,
            Country::DK => "DK"@,
            Country::VG => "VG"@,
            Country::DE => "DE"@,
            Country::YE => "YE"@,
            Country::DZ => "DZ"@,
            Country::US => "US"@,
            Country::UY => "UY"@,
            Country::YT => "YT"@,
            Country::UM => "UM"@,
            Country::LB => "LB"@,
            Country::LC => "LC"@,
            Country::LA => "LA"@,
            Country::TV => "TV"@,
            Country::TW => "TW"@,
            Country::TT => "TT"@,
            Country::TR => "TR"@,
            Country::LK => "LK"@,
            Country::LI => "LI"@,
            Country::LV => "LV"@,
            Country::TO => "TO"@,
            Country::LT => "LT"@,
            Country::LU => "LU"@,
            Country::LR => "LR"@,
            Country::LS => "LS"@,
            Country::TH => "TH"@,
            Country::TF => "TF"@,
            Country::TG => "TG"@,
            Country::TD => "TD"@,
            Country::TC => "TC"@,
            Country::LY => "LY"@,
            Country::VA => "VA"@,
            Country::VC => "VC"@,
            Country::AE => "AE"@,
            Country::AD => "AD"@,
            Country::AG => "AG"@,
            Country::AF => "AF"@,
            Country::AI => "AI"@,
            Country::VI => "VI"@,
            Country::IS => "IS"@,
            Country::IR => "IR"@,
            Country::AM => "AM"@,
            Country::AL => "AL"@,
            Country::AO => "AO"@,
            Country::AQ => "AQ"@,
            Country::AS => "AS"@,
            Country::AR => "AR"@,
            Country::AU => "AU"@,
            Country::AT => "AT"@,
            Country::AW => "AW"@,
            Country::IN => "IN"@,
            Country::AX => "AX"@,
            Country::AZ => "AZ"@,
            Country::IE => "IE"@,
            Country::ID => "ID"@,
            Country::UA => "UA"@,
            Country::QA => "QA"@,
            Country::MZ => "MZ"@,
        }
    }

    /// Whether `text` is the code of the country. With `ignore_case` the
    /// case of the letters does not matter.
    pub open spec fn is_named(self, text: Seq<char>, ignore_case: bool) -> bool {
        if ignore_case {
            eq_ignore_ascii_case(self.name(), text)
        } else {
            self.name() == text
        }
    }

    /// All the countries, in the order of their declaration.
    pub open spec fn every() -> Seq<Country> {
        seq![
            Country::BD, Country::BE, Country::BF, Country::BG, Country::BA, Country::BB,
            Country::WF, Country::BL, Country::BM, Country::BN, Country::BO, Country::BH,
            Country::BI, Country::BJ, Country::BT, Country::JM, Country::BV, Country::BW,
            Country::WS, Country::BQ, Country::BR, Country::BS, Country::JE, Country::BY,
            Country::BZ, Country::RU, Country::RW, Country::RS, Country::TL, Country::RE,
            Country::TM, Country::TJ, Country::RO, Country::TK, Country::GW, Country::GU,
            Country::GT, Country::GS, Country::GR, Country::GQ, Country::GP, Country::JP,
            Country::GY, Country::GG, Country::GF, Country::GE, Country::GD, Country::UK,
            Country::GA, Country::SV, Country::GN, Country::GM, Country::GL, Country::GI,
            Country::GH, Country::OM, Country::TN, Country::JO, Country::HR, Country::HT,
            Country::HU, Country::HK, Country::HN, Country::HM, Country::VE, Country::PR,
            Country::PS, Country::PW, Country::PT, Country::SJ, Country::PY, Country::IQ,
            Country::PA, Country::PF, Country::PG, Country::PE, Country::PK, Country::PH,
            Country::PN, Country::PL, Country::PM, Country::ZM, Country::EH, Country::EE,
            Country::EG, Country::ZA, Country::EC, Country::IT, Country::VN, Country::SB,
            Country::ET, Country::SO, Country::ZW, Country::SA, Country::ES, Country::ER,
            Country::ME, Country::MD, Country::MG, Country::MF, Country::MA, Country::MC,
            Country::UZ, Country::MM, Country::ML, Country::MO, Country::MN, Country::MH,
            Country::MK, Country::MU, Country::MT, Country::MW, Country::MV, Country::MQ,
            Country::MP, Country::MS, Country::MR, Country::IM, Country::UG, Country::TZ,
            Country::MY, Country::MX, Country::IL, Country::FR, Country::IO, Country::SH,
            Country::FI, Country::FJ, Country::FK, Country::FM, Country::FO, Country::NI,
            Country::NL, Country::NO, Country::NA, Country::VU, Country::NC, Country::NE,
            Country::NF, Country::NG, Country::NZ, Country::NP, Country::NR, Country::NU,
            Country::CK, Country::XK, Country::CI, Country::CH, Country::CO, Country::CN,
            Country::CM, Country::CL, Country::CC, Country::CA, Country::CG, Country::CF,
            Country::CD, Country::CZ, Country::CY, Country::CX, Country::CR, Country::CW,
            Country::CV, Country::CU, Country::SZ, Country::SY, Country::SX, Country::KG,
            Country::KE, Country::SS, Country::SR, Country::KI, Country::KH, Country::KN,
            Country::KM, Country::ST, Country::SK, Country::KR, Country::SI, Country::KP,
            Country::KW, Country::SN, Country::SM, Country::SL, Country::SC, Country::KZ,
            Country::KY, Country::SG, Country::SE, Country::SD, Country::DO, Country::DM,
            Country::DJ, Country::DK, Country::VG, Country::DE, Country::YE, Country::DZ,
            Country::US, Country::UY, Country::YT, Country::UM, Country::LB, Country::LC,
            Country::LA, Country::TV, Country::TW, Country::TT, Country::TR, Country::LK,
            Country::LI, Country::LV, Country::TO, Country::LT, Country::LU, Country::LR,
            Country::LS, Country::TH, Country::TF, Country::TG, Country::TD, Country::TC,
            Country::LY, Country::VA, Country::VC, Country::AE, Country::AD, Country::AG,
            Country::AF, Country::AI, Country::VI, Country::IS, Country::IR, Country::AM,
            Country::AL, Country::AO, Country::AQ, Country::AS, Country::AR, Country::AU,
            Country::AT, Country::AW, Country::IN, Country::AX, Country::AZ, Country::IE,
            Country::ID, Country::UA, Country::QA, Country::MZ,
        ]
    }

    /// The two-letter code of the country, in capitals.
    pub fn code(&self) -> (name: &'static str)
        ensures
            name@ == self.name(),
    {
        match self {
            Country::BD => "BD",
            Country::BE => "BE",
            Country::BF => "BF",
            Country::BG => "BG",
            Country::BA => "BA",
            Country::BB => "BB",
            Country::WF => "WF",
            Country::BL => "BL",
            Country::BM => "BM",
            Country::BN => "BN",
            Country::BO => "BO",
            Country::BH => "BH",
            Country::BI => "BI",
            Country::BJ => "BJ",
            Country::BT => "BT",
            Country::JM => "JM",
            Country::BV => "BV",
            Country::BW => "BW",
            Country::WS => "WS",
            Country::BQ => "BQ",
            Country::BR => "BR",
            Country::BS => "BS",
            Country::JE => "JE",
            Country::BY => "BY",
            Country::BZ => "BZ",
            Country::RU => "RU",
            Country::RW => "RW",
            Country::RS => "RS",
            Country::TL => "TL",
            Country::RE => "RE",
            Country::TM => "TM",
            Country::TJ => "TJ",
            Country::RO => "RO",
            Country::TK => "TK",
            Country::GW => "GW",
            Country::GU => "GU",
            Country::GT => "GT",
            Country::GS => "GS",
            Country::GR => "GR",
            Country::GQ => "GQ",
            Country::GP => "GP",
            Country::JP => "JP",
            Country::GY => "GY",
            Country::GG => "GG",
            Country::GF => "GF",
            Country::GE => "GE",
            Country::GD => "GD",
            Country::UK => "UK",
            Country::GA => "GA",
            Country::SV => "SV",
            Country::GN => "GN",
            Country::GM => "GM",
            Country::GL => "GL",
            Country::GI => "GI",
            Country::GH => "GH",
            Country::OM => "OM",
            Country::TN => "TN",
            Country::JO => "JO",
            Country::HR => "HR",
            Country::HT => "HT",
            Country::HU => "HU",
            Country::HK => "HK",
            Country::HN => "HN",
            Country::HM => "HM",
            Country::VE => "VE",
            Country::PR => "PR",
            Country::PS => "PS",
            Country::PW => "PW",
            Country::PT => "PT",
            Country::SJ => "SJ",
            Country::PY => "PY",
            Country::IQ => "IQ",
            Country::PA => "PA",
            Country::PF => "PF",
            Country::PG => "PG",
            Country::PE => "PE",
            Country::PK => "PK",
            Country::PH => "PH",
            Country::PN => "PN",
            Country::PL => "PL",
            Country::PM => "PM",
            Country::ZM => "ZM",
            Country::EH => "EH",
            Country::EE => "EE",
            Country::EG => "EG",
            Country::ZA => "ZA",
            Country::EC => "EC",
            Country::IT => "IT",
            Country::VN => "VN",
            Country::SB => "SB",
            Country::ET => "ET",
            Country::SO => "SO",
            Country::ZW => "ZW",
            Country::SA => "SA",
            Country::ES => "ES",
            Country::ER => "ER",
            Country::ME => "ME",
            Country::MD => "MD",
            Country::MG => "MG",
            Country::MF => "MF",
            Country::MA => "MA",
            Country::MC => "MC",
            Country::UZ => "UZ",
            Country::MM => "MM",
            Country::ML => "ML",
            Country::MO => "MO",
            Country::MN => "MN",
            Country::MH => "MH",
            Country::MK => "MK",
            Country::MU => "MU",
            Country::MT => "MT",
            Country::MW => "MW",
            Country::MV => "MV",
            Country::MQ => "MQ",
            Country::MP => "MP",
            Country::MS => "MS",
            Country::MR => "MR",
            Country::IM => "IM",
            Country::UG => "UG",
            Country::TZ => "TZ",
            Country::MY => "MY",
            Country::MX => "MX",
            Country::IL => "IL",
            Country::FR => "FR",
            Country::IO => "IO",
            Country::SH => "SH",
            Country::FI => "FI",
            Country::FJ => "FJ",
            Country::FK => "FK",
            Country::FM => "FM",
            Country::FO => "FO",
            Country::NI => "NI",
            Country::NL => "NL",
            Country::NO => "NO",
            Country::NA => "NA",
            Country::VU => "VU",
            Country::NC => "NC",
            Country::NE => "NE",
            Country::NF => "NF",
            Country::NG => "NG",
            Country::NZ => "NZ",
            Country::NP => "NP",
            Country::NR => "NR",
            Country::NU => "NU",
            Country::CK => "CK",
            Country::XK => "XK",
            Country::CI => "CI",
            Country::CH => "CH",
            Country::CO => "CO",
            Country::CN => "CN",
            Country::CM => "CM",
            Country::CL => "CL",
            Country::CC => "CC",
            Country::CA => "CA",
            Country::CG => "CG",
            Country::CF => "CF",
            Country::CD => "CD",
            Country::CZ => "CZ",
            Country::CY => "CY",
            Country::CX => "CX",
            Country::CR => "CR",
            Country::CW => "CW",
            Country::CV => "CV",
            Country::CU => "CU",
            Country::SZ => "SZ",
            Country::SY => "SY",
            Country::SX => "SX",
            Country::KG => "KG",
            Country::KE => "KE",
            Country::SS => "SS",
            Country::SR => "SR",
            Country::KI => "KI",
            Country::KH => "KH",
            Country::KN => "KN",
            Country::KM => "KM",
            Country::ST => "ST",
            Country::SK => "SK",
            Country::KR => "KR",
            Country::SI => "SI",
            Country::KP => "KP",
            Country::KW => "KW",
            Country::SN => "SN",
            Country::SM => "SM",
            Country::SL => "SL",
            Country::SC => "SC",
            Country::KZ => "KZ",
            Country::KY => "KY",
            Country::SG => "SG",
            Country::SE => "SE",
            Country::SD => "SD",
            Country::DO => "DO",
            Country::DM => "DM",
            Country::DJ => "DJ",
            Country::DK => "DK",
            Country::VG => "VG",
            Country::DE => "DE",
            Country::YE => "YE",
            Country::DZ => "DZ",
            Country::US => "US",
            Country::UY => "UY",
            Country::YT => "YT",
            Country::UM => "UM",
            Country::LB => "LB",
            Country::LC => "LC",
            Country::LA => "LA",
            Country::TV => "TV",
            Country::TW => "TW",
            Country::TT => "TT",
            Country::TR => "TR",
            Country::LK => "LK",
            Country::LI => "LI",
            Country::LV => "LV",
            Country::TO => "TO",
            Country::LT => "LT",
            Country::LU => "LU",
            Country::LR => "LR",
            Country::LS => "LS",
            Country::TH => "TH",
            Country::TF => "TF",
            Country::TG => "TG",
            Country::TD => "TD",
            Country::TC => "TC",
            Country::LY => "LY",
            Country::VA => "VA",
            Country::VC => "VC",
            Country::AE => "AE",
            Country::AD => "AD",
            Country::AG => "AG",
            Country::AF => "AF",
            Country::AI => "AI",
            Country::VI => "VI",
            Country::IS => "IS",
            Country::IR => "IR",
            Country::AM => "AM",
            Country::AL => "AL",
            Country::AO => "AO",
            Country::AQ => "AQ",
            Country::AS => "AS",
            Country::AR => "AR",
            Country::AU => "AU",
            Country::AT => "AT",
            Country::AW => "AW",
            Country::IN => "IN",
            Country::AX => "AX",
            Country::AZ => "AZ",
            Country::IE => "IE",
            Country::ID => "ID",
            Country::UA => "UA",
            Country::QA => "QA",
            Country::MZ => "MZ",
        }
    }

    /// All the countries, in the order of their declaration.
    pub fn all() -> (countries: Vec<Country>)
        ensures
            countries@ == Self::every(),
    {
        let countries = vec![
            Country::BD, Country::BE, Country::BF, Country::BG, Country::BA, Country::BB,
            Country::WF, Country::BL, Country::BM, Country::BN, Country::BO, Country::BH,
            Country::BI, Country::BJ, Country::BT, Country::JM, Country::BV, Country::BW,
            Country::WS, Country::BQ, Country::BR, Country::BS, Country::JE, Country::BY,
            Country::BZ, Country::RU, Country::RW, Country::RS, Country::TL, Country::RE,
            Country::TM, Country::TJ, Country::RO, Country::TK, Country::GW, Country::GU,
            Country::GT, Country::GS, Country::GR, Country::GQ, Country::GP, Country::JP,
            Country::GY, Country::GG, Country::GF, Country::GE, Country::GD, Country::UK,
            Country::GA, Country::SV, Country::GN, Country::GM, Country::GL, Country::GI,
            Country::GH, Country::OM, Country::TN, Country::JO, Country::HR, Country::HT,
            Country::HU, Country::HK, Country::HN, Country::HM, Country::VE, Country::PR,
            Country::PS, Country::PW, Country::PT, Country::SJ, Country::PY, Country::IQ,
            Country::PA, Country::PF, Country::PG, Country::PE, Country::PK, Country::PH,
            Country::PN, Country::PL, Country::PM, Country::ZM, Country::EH, Country::EE,
            Country::EG, Country::ZA, Country::EC, Country::IT, Country::VN, Country::SB,
            Country::ET, Country::SO, Country::ZW, Country::SA, Country::ES, Country::ER,
            Country::ME, Country::MD, Country::MG, Country::MF, Country::MA, Country::MC,
            Country::UZ, Country::MM, Country::ML, Country::MO, Country::MN, Country::MH,
            Country::MK, Country::MU, Country::MT, Country::MW, Country::MV, Country::MQ,
            Country::MP, Country::MS, Country::MR, Country::IM, Country::UG, Country::TZ,
            Country::MY, Country::MX, Country::IL, Country::FR, Country::IO, Country::SH,
            Country::FI, Country::FJ, Country::FK, Country::FM, Country::FO, Country::NI,
            Country::NL, Country::NO, Country::NA, Country::VU, Country::NC, Country::NE,
            Country::NF, Country::NG, Country::NZ, Country::NP, Country::NR, Country::NU,
            Country::CK, Country::XK, Country::CI, Country::CH, Country::CO, Country::CN,
            Country::CM, Country::CL, Country::CC, Country::CA, Country::CG, Country::CF,
            Country::CD, Country::CZ, Country::CY, Country::CX, Country::CR, Country::CW,
            Country::CV, Country::CU, Country::SZ, Country::SY, Country::SX, Country::KG,
            Country::KE, Country::SS, Country::SR, Country::KI, Country::KH, Country::KN,
            Country::KM, Country::ST, Country::SK, Country::KR, Country::SI, Country::KP,
            Country::KW, Country::SN, Country::SM, Country::SL, Country::SC, Country::KZ,
            Country::KY, Country::SG, Country::SE, Country::SD, Country::DO, Country::DM,
            Country::DJ, Country::DK, Country::VG, Country::DE, Country::YE, Country::DZ,
            Country::US, Country::UY, Country::YT, Country::UM, Country::LB, Country::LC,
            Country::LA, Country::TV, Country::TW, Country::TT, Country::TR, Country::LK,
            Country::LI, Country::LV, Country::TO, Country::LT, Country::LU, Country::LR,
            Country::LS, Country::TH, Country::TF, Country::TG, Country::TD, Country::TC,
            Country::LY, Country::VA, Country::VC, Country::AE, Country::AD, Country::AG,
            Country::AF, Country::AI, Country::VI, Country::IS, Country::IR, Country::AM,
            Country::AL, Country::AO, Country::AQ, Country::AS, Country::AR, Country::AU,
            Country::AT, Country::AW, Country::IN, Country::AX, Country::AZ, Country::IE,
            Country::ID, Country::UA, Country::QA, Country::MZ,
        ];
        assert(countries@ =~= Self::every());
        countries
    }

    /// The first country with this code.
    pub fn from_code(text: &str, ignore_case: bool) -> (found: Option<Country>)
        ensures
            match found {
                Some(country) => country.is_named(text@, ignore_case),
                None => forall|i: int|
                    0 <= i < Self::every().len() ==> !(#[trigger] Self::every()[i]).is_named(
                        text@,
                        ignore_case,
                    ),
            },
    {
        let countries = Self::all();
        let mut i: usize = 0;
        while i < countries.len()
            invariant
                i <= countries.len(),
                countries@ == Self::every(),
                forall|k: int|
                    0 <= k < i ==> !(#[trigger] Self::every()[k]).is_named(text@, ignore_case),
            decreases countries.len() - i,
        {
            let country = countries[i];
            let matches = if ignore_case {
                same_text_ignore_ascii_case(country.code(), text)
            } else {
                same_text(country.code(), text)
            };
            if matches {
                return Some(country);
            }
            i += 1;
        }
        None
    }
}

} // verus!
