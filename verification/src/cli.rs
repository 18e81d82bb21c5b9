//! What the command line front end computes: the filters and the choice of
//! a server from the options, the request to send, and the status table.

use crate::api::types::{Country, LogicalServer, Tier};
use crate::api::{least, FilteredLogicalServers, SortOrder};
use crate::client::openvpn::Protocol;
use crate::config::{FeatureEnum, Filters, Select};
use crate::protocol::{Request, RequestView};
use vstd::prelude::*;
use vstd::utf8::encode_utf8;

verus! {

/// The features that the feature switches ask for, in the order in which
/// the switches are read.
pub open spec fn wanted_features(secure_core: bool, streaming: bool, tor: bool, p2p: bool) -> Seq<
    FeatureEnum,
> {
    (if secure_core {
        seq![FeatureEnum::SecureCore]
    } else {
        Seq::<FeatureEnum>::empty()
    }) + (if streaming {
        seq![FeatureEnum::Streaming]
    } else {
        Seq::<FeatureEnum>::empty()
    }) + (if tor {
        seq![FeatureEnum::Tor]
    } else {
        Seq::<FeatureEnum>::empty()
    }) + (if p2p {
        seq![FeatureEnum::P2P]
    } else {
        Seq::<FeatureEnum>::empty()
    })
}

/// The filters that the options stand for. An option that is not given
/// falls back on the configured default, except the features, which are
/// exactly those that were switched on, and the country.
pub fn filter_servers(
    country: Option<Country>,
    tier: Option<Tier>,
    max_load: Option<u8>,
    secure_core: bool,
    streaming: bool,
    tor: bool,
    p2p: bool,
    defaults: &Filters,
) -> (filters: Filters)
    ensures
        filters.country == country,
        filters.tier == match tier {
            Some(tier) => tier,
            None => defaults.tier,
        },
        filters.max_load == match max_load {
            Some(max_load) => max_load,
            None => defaults.max_load,
        },
        filters.features@ == wanted_features(secure_core, streaming, tor, p2p),
{
    let mut features: Vec<FeatureEnum> = Vec::new();
    if secure_core {
        features.push(FeatureEnum::SecureCore);
    }
    if streaming {
        features.push(FeatureEnum::Streaming);
    }
    if tor {
        features.push(FeatureEnum::Tor);
    }
    if p2p {
        features.push(FeatureEnum::P2P);
    }
    assert(features@ =~= wanted_features(secure_core, streaming, tor, p2p));
    Filters {
        country,
        tier: match tier {
            Some(tier) => tier,
            None => defaults.tier,
        },
        max_load: match max_load {
            Some(max_load) => max_load,
            None => defaults.max_load,
        },
        features,
    }
}

/// How the server is picked, given the switches: the first switch that is
/// on counts, in the order fastest, random, least load. With none on, the
/// first server of the list is taken.
pub fn selection(fastest: bool, random: bool, least_load: bool) -> (choice: Option<Select>)
    ensures
        choice == if fastest {
            Some(Select::Fastest)
        } else if random {
            Some(Select::Random)
        } else if least_load {
            Some(Select::LeastLoad)
        } else {
            None::<Select>
        },
{
    if fastest {
        Some(Select::Fastest)
    } else if random {
        Some(Select::Random)
    } else if least_load {
        Some(Select::LeastLoad)
    } else {
        None
    }
}

/// The server to connect to. There is none exactly when no server passed
/// the filters.
pub fn choose_server<'a>(servers: FilteredLogicalServers<'a>, choice: Option<Select>) -> (picked:
    Option<&'a LogicalServer>)
    ensures
        picked is Some <==> servers@.len() > 0,
        picked matches Some(record) ==> match choice {
            Some(Select::Fastest) => least(servers@, record@, SortOrder::Speed),
            Some(Select::LeastLoad) => least(servers@, record@, SortOrder::Load),
            Some(Select::Random) => servers@.contains(record@),
            None => record@ == servers@[0],
        },
{
    match choice {
        Some(select) => servers.select(&select),
        None => servers.pick(Some(0)),
    }
}

/// The request that asks for a tunnel to `server`, over the given protocol
/// or over the default one.
pub fn handle_connect_subcommand(server: &LogicalServer, protocol: Option<Protocol>) -> (request:
    Request)
    ensures
        request@ == RequestView::Connect(
            server@.id,
            match protocol {
                Some(protocol) => protocol,
                None => Protocol::Udp,
            },
        ),
{
    let protocol = match protocol {
        Some(protocol) => protocol,
        None => Protocol::default(),
    };
    Request::Connect(server.id.clone(), protocol)
}

/// One line of the status table.
#[derive(Debug)]
pub struct StatusLine {
    pub key: String,
    pub value: String,
}

/// The status table: keys and values, printed with the keys aligned at
/// their end.
#[derive(Debug)]
pub struct StatusTable {
    pub lines: Vec<StatusLine>,
}

/// The keys and values of a table.
pub open spec fn line_views(lines: Seq<StatusLine>) -> Seq<(Seq<char>, Seq<char>)> {
    Seq::new(lines.len(), |i: int| (lines[i].key@, lines[i].value@))
}

/// The keys and values of a list of pairs.
pub open spec fn pair_views(pairs: Seq<(&str, &str)>) -> Seq<(Seq<char>, Seq<char>)> {
    Seq::new(pairs.len(), |i: int| (pairs[i].0@, pairs[i].1@))
}

/// The width of a key: the number of bytes of its UTF-8 encoding.
pub open spec fn width(key: Seq<char>) -> usize {
    encode_utf8(key).len() as usize
}

/// The width of the widest of the first `n` keys.
pub open spec fn widest(lines: Seq<(Seq<char>, Seq<char>)>, n: int) -> usize
    decreases n,
{
    if n <= 0 {
        0
    } else {
        let before = widest(lines, n - 1);
        if width(lines[n - 1].0) >= before {
            width(lines[n - 1].0)
        } else {
            before
        }
    }
}

/// The blanks in front of the key of line `i`: one, and as many more as the
/// key is narrower than the widest key.
pub open spec fn padding(lines: Seq<(Seq<char>, Seq<char>)>, i: int) -> Seq<char> {
    Seq::new((widest(lines, lines.len() as int) - width(lines[i].0) + 1) as nat, |k: int| ' ')
}

/// No key is wider than the widest.
pub proof fn lemma_widest(lines: Seq<(Seq<char>, Seq<char>)>, n: int, i: int)
    requires
        0 <= i < n <= lines.len(),
    ensures
        width(lines[i].0) <= widest(lines, n),
    decreases n,
{
    if i < n - 1 {
        lemma_widest(lines, n - 1, i);
    }
}

impl View for StatusTable {
    type V = Seq<(Seq<char>, Seq<char>)>;

    open spec fn view(&self) -> Seq<(Seq<char>, Seq<char>)> {
        line_views(self.lines@)
    }
}

impl StatusTable {
    /// The table with the given keys and values, in order.
    pub fn new(values: Vec<(&str, &str)>) -> (table: StatusTable)
        ensures
            table@ == pair_views(values@),
    {
        let mut lines: Vec<StatusLine> = Vec::new();
        let mut i: usize = 0;
        while i < values.len()
            invariant
                i <= values.len(),
                line_views(lines@) == pair_views(values@).take(i as int),
            decreases values.len() - i,
        {
            let (key, value) = values[i];
            let ghost before = line_views(lines@);
            lines.push(StatusLine { key: key.to_owned(), value: value.to_owned() });
            assert(line_views(lines@) =~= before.push((key@, value@)));
            assert(pair_views(values@)[i as int] == (key@, value@));
            assert(pair_views(values@).take(i + 1) =~= pair_views(values@).take(i as int).push(
                (key@, value@),
            ));
            i += 1;
        }
        assert(pair_views(values@).take(i as int) =~= pair_views(values@));
        StatusTable { lines }
    }

    /// Adds a line at the end.
    pub fn push(&mut self, line: (&str, &str))
        ensures
            final(self)@ == old(self)@.push((line.0@, line.1@)),
    {
        let (key, value) = line;
        self.lines.push(StatusLine { key: key.to_owned(), value: value.to_owned() });
        assert(self@ =~= old(self)@.push((line.0@, line.1@)));
    }

    /// The blanks that are printed in front of each key, line by line.
    pub fn print_lines(&self) -> (blanks: Vec<String>)
        ensures
            blanks@.len() == self@.len(),
            forall|i: int| 0 <= i < self@.len() ==> (#[trigger] blanks@[i])@ == padding(self@, i),
    {
        let mut max_len: usize = 0;
        let mut i: usize = 0;
        while i < self.lines.len()
            invariant
                i <= self.lines.len(),
                max_len == widest(self@, i as int),
            decreases self.lines.len() - i,
        {
            let len = self.lines[i].key.as_str().len();
            assert(len == width(self@[i as int].0));
            if len >= max_len {
                max_len = len;
            }
            i += 1;
        }
        let mut blanks: Vec<String> = Vec::new();
        let mut i: usize = 0;
        while i < self.lines.len()
            invariant
                i <= self.lines.len(),
                max_len == widest(self@, self@.len() as int),
                blanks@.len() == i,
                forall|k: int| 0 <= k < i ==> (#[trigger] blanks@[k])@ == padding(self@, k),
            decreases self.lines.len() - i,
        {
            let len = self.lines[i].key.as_str().len();
            assert(len == width(self@[i as int].0));
            proof {
                lemma_widest(self@, self@.len() as int, i as int);
                reveal_strlit(" ");
            }
            let mut text = " ".to_owned();
            let mut n: usize = len;
            while n < max_len
                invariant
                    len <= n <= max_len,
                    text@ == Seq::new((n - len + 1) as nat, |k: int| ' '),
                decreases max_len - n,
            {
                proof {
                    reveal_strlit(" ");
                }
                text.append(" ");
                assert(text@ =~= Seq::new((n + 1 - len + 1) as nat, |k: int| ' '));
                n += 1;
            }
            assert(text@ =~= padding(self@, i as int));
            blanks.push(text);
            i += 1;
        }
        blanks
    }
}

/// What the status table says of the interface: its name and first
/// address, or a warning where the interface was not found.
pub open spec fn interface_text(interface: Option<(Seq<char>, Seq<char>)>) -> Seq<char> {
    match interface {
        Some((name, address)) => name + " "@ + address,
        None => "Network interface not found! your ip is exposed"@,
    }
}

/// The status table of a tunnel that is up.
pub fn handle_status_subcommand(
    name: &str,
    protocol: &str,
    pid: &str,
    interface: Option<(&str, &str)>,
    public_ip: Option<&str>,
) -> (table: StatusTable)
    ensures
        table@ == seq![
            ("Server"@, name@),
            ("Protocol"@, protocol@),
            ("OpenVPN PID"@, pid@),
            (
                "Interface"@,
                interface_text(
                    match interface {
                        Some(found) => Some((found.0@, found.1@)),
                        None => None,
                    },
                ),
            ),
        ] + match public_ip {
            Some(ip) => seq![("Public IP"@, ip@)],
            None => Seq::<(Seq<char>, Seq<char>)>::empty(),
        },
{
    let shown = match interface {
        Some((nic, address)) => {
            let mut text = nic.to_owned();
            text.append(" ");
            text.append(address);
            text
        },
        None => "Network interface not found! your ip is exposed".to_owned(),
    };
    let values = vec![
        ("Server", name),
        ("Protocol", protocol),
        ("OpenVPN PID", pid),
        ("Interface", shown.as_str()),
    ];
    let ghost first = pair_views(values@);
    let mut table = StatusTable::new(values);
    match public_ip {
        Some(ip) => {
            table.push(("Public IP", ip));
        },
        None => {},
    }
    assert(table@ =~= first + match public_ip {
        Some(ip) => seq![("Public IP"@, ip@)],
        None => Seq::<(Seq<char>, Seq<char>)>::empty(),
    });
    assert(first =~= seq![
        ("Server"@, name@),
        ("Protocol"@, protocol@),
        ("OpenVPN PID"@, pid@),
        (
            "Interface"@,
            interface_text(
                match interface {
                    Some(found) => Some((found.0@, found.1@)),
                    None => None,
                },
            ),
        ),
    ]);
    table
}

/// The request that switches the killswitch.
pub fn handle_killswitch_subcommand(enable: bool) -> (request: Request)
    ensures
        request@ == RequestView::Killswitch(enable),
{
    Request::Killswitch(enable)
}

} // verus!
