use vstd::prelude::*;
use vstd::string::StrSliceExecFns;
use vstd::string::StringExecFns;

verus! {

/// An address of the networking layer, kept both as the text it was read
/// from and as the parsed value that the networking layer consumes.
#[derive(Debug)]
pub struct PeerAddress {
    pub text: String,
    pub addr: multiaddr::Multiaddr,
}

#[verifier::external_type_specification]
#[verifier::external_body]
pub struct ExMultiaddr(multiaddr::Multiaddr);

/// Whether a text is a well-formed multi-address. Parsing depends on the
/// characters alone.
pub uninterp spec fn is_multiaddr(s: Seq<char>) -> bool;

/// Relies on `<multiaddr::Multiaddr as FromStr>::from_str`: it accepts or
/// rejects a text by its characters alone, and never panics.
#[verifier::external_body]
fn parse_multiaddr(s: &str) -> (r: Option<multiaddr::Multiaddr>)
    ensures
        r is Some <==> is_multiaddr(s@),
{
    s.parse::<multiaddr::Multiaddr>().ok()
}

/// An address that the networking layer can dial: a non-empty text that
/// parses as a multi-address (the empty text parses as the empty address).
pub open spec fn is_usable_address(s: Seq<char>) -> bool {
    s.len() > 0 && is_multiaddr(s)
}

/// Parses one address; `None` exactly when the text is not a usable address.
pub fn parse_peer_address(s: &str) -> (r: Option<PeerAddress>)
    ensures
        r is Some <==> is_usable_address(s@),
        r matches Some(a) ==> a.text@ == s@,
{
    if s.is_empty() {
        return None;
    }
    match parse_multiaddr(s) {
        Some(addr) => Some(PeerAddress { text: String::from_str(s), addr }),
        None => None,
    }
}

/// The relay that the shuttle discovery uses when no override is given.
pub const DEFAULT_SHUTTLE_ADDRESS: &'static str =
    "/ip4/159.65.41.31/tcp/8848/p2p/12D3KooWRF2bz3KDRPvBs1FASRDRk7BfdYc1RUcfwKsz7UBEu7mL";

/// The discovery setting chosen by the user.
#[derive(Clone, Debug, PartialEq)]
pub enum DiscoveryMode {
    /// Enable full discovery
    Full,
    /// Use the relay-based discovery
    Shuttle,
    /// Address to a specific discovery point
    RzPoint { address: String },
    /// Disable discovery
    Disable,
}

impl Default for DiscoveryMode {
    fn default() -> (r: DiscoveryMode)
        ensures
            r is Shuttle,
    {
        DiscoveryMode::Shuttle
    }
}

/// What goes wrong while reading or resolving the discovery setting.
#[derive(Clone, Copy, Debug, PartialEq, Eq, Structural)]
pub enum ConfigError {
    /// The mode word is none of the known ones.
    UnknownMode,
    /// A fixed discovery point is not a usable address.
    InvalidAddress,
}

/// The word-to-mode table, applied to a word that is already lower case.
pub open spec fn mode_of_word(w: Seq<char>) -> Result<DiscoveryMode, ConfigError> {
    if w == "full"@ {
        Ok(DiscoveryMode::Full)
    } else if w == "shuttle"@ {
        Ok(DiscoveryMode::Shuttle)
    } else if w == "disable"@ {
        Ok(DiscoveryMode::Disable)
    } else {
        Err(ConfigError::UnknownMode)
    }
}

/// The lower-case form of a text, as the standard library computes it.
pub uninterp spec fn lower_of(s: Seq<char>) -> Seq<char>;

/// Relies on `str::to_lowercase`: the result depends on the characters alone.
#[verifier::external_body]
fn lowercase(s: &str) -> (r: String)
    ensures
        r@ == lower_of(s@),
{
    s.to_lowercase()
}

impl DiscoveryMode {
    /// A copy of the mode.
    pub fn duplicate(&self) -> (r: DiscoveryMode)
        ensures
            r == *self,
    {
        match self {
            DiscoveryMode::Full => DiscoveryMode::Full,
            DiscoveryMode::Shuttle => DiscoveryMode::Shuttle,
            DiscoveryMode::RzPoint { address } => DiscoveryMode::RzPoint { address: address.clone() },
            DiscoveryMode::Disable => DiscoveryMode::Disable,
        }
    }

    /// Reads a mode from a word that is already lower case.
    pub fn from_lowered(w: &str) -> (r: Result<DiscoveryMode, ConfigError>)
        ensures
            r == mode_of_word(w@),
    {
        let w = String::from_str(w);
        if w == String::from_str("full") {
            Ok(DiscoveryMode::Full)
        } else if w == String::from_str("shuttle") {
            Ok(DiscoveryMode::Shuttle)
        } else if w == String::from_str("disable") {
            Ok(DiscoveryMode::Disable)
        } else {
            Err(ConfigError::UnknownMode)
        }
    }

    /// Reads a mode from a word in any letter case.
    pub fn parse(s: &str) -> (r: Result<DiscoveryMode, ConfigError>)
        ensures
            r == mode_of_word(lower_of(s@)),
    {
        let w = lowercase(s);
        DiscoveryMode::from_lowered(w.as_str())
    }
}

impl std::str::FromStr for DiscoveryMode {
    type Err = ConfigError;

    fn from_str(s: &str) -> Result<DiscoveryMode, ConfigError> {
        DiscoveryMode::parse(s)
    }
}


/// The pieces of a text between commas, as `str::split(',')` gives them:
/// one piece for a text without a comma, an empty piece around each
/// leading, trailing or doubled comma.
pub open spec fn comma_pieces(s: Seq<char>) -> Seq<Seq<char>>
    decreases s.len(),
{
    if s.len() == 0 {
        seq![Seq::<char>::empty()]
    } else {
        let prev = comma_pieces(s.drop_last());
        if s.last() == ',' {
            prev.push(Seq::<char>::empty())
        } else {
            prev.update(prev.len() - 1, prev.last().push(s.last()))
        }
    }
}

/// The pieces that are usable addresses, in their order.
pub open spec fn usable_only(pieces: Seq<Seq<char>>) -> Seq<Seq<char>>
    decreases pieces.len(),
{
    if pieces.len() == 0 {
        Seq::<Seq<char>>::empty()
    } else {
        let rest = usable_only(pieces.drop_last());
        if is_usable_address(pieces.last()) {
            rest.push(pieces.last())
        } else {
            rest
        }
    }
}

/// The texts of a list of addresses.
pub open spec fn address_texts(v: Seq<PeerAddress>) -> Seq<Seq<char>> {
    v.map_values(|a: PeerAddress| a.text@)
}

/// Appends the address in `piece` to `out` when it parses.
fn keep_if_usable(out: &mut Vec<PeerAddress>, piece: &str)
    ensures
        address_texts(final(out)@) == if is_usable_address(piece@) {
            address_texts(old(out)@).push(piece@)
        } else {
            address_texts(old(out)@)
        },
{
    match parse_peer_address(piece) {
        Some(a) => {
            out.push(a);
            assert(address_texts(final(out)@) =~= address_texts(old(out)@).push(piece@));
        },
        None => {},
    }
}

/// The well-formed addresses among the comma-separated pieces of `list`,
/// in their order; malformed pieces are dropped.
pub fn parse_address_list(list: &str) -> (r: Vec<PeerAddress>)
    ensures
        address_texts(r@) == usable_only(comma_pieces(list@)),
{
    let n = list.unicode_len();
    let mut out: Vec<PeerAddress> = Vec::new();
    let mut start: usize = 0;
    let mut i: usize = 0;
    let ghost mut done: Seq<Seq<char>> = Seq::empty();
    proof {
        assert(list@.take(0) =~= Seq::<char>::empty());
        assert(list@.subrange(0, 0) =~= Seq::<char>::empty());
        assert(done.push(Seq::<char>::empty()) =~= seq![Seq::<char>::empty()]);
    }
    while i < n
        invariant
            n == list@.len(),
            start <= i <= n,
            comma_pieces(list@.take(i as int)) == done.push(list@.subrange(start as int, i as int)),
            address_texts(out@) == usable_only(done),
        decreases n - i,
    {
        let c = list.get_char(i);
        let ghost prefix = list@.take(i as int);
        let ghost next = list@.take(i + 1);
        assert(next.drop_last() =~= prefix);
        assert(next.last() == c);
        if c == ',' {
            let piece = list.substring_char(start, i);
            keep_if_usable(&mut out, piece);
            proof {
                assert(done.push(piece@).drop_last() =~= done);
                done = done.push(piece@);
                assert(list@.subrange(i + 1, i + 1) =~= Seq::<char>::empty());
            }
            start = i + 1;
        } else {
            proof {
                let cur = list@.subrange(start as int, i as int);
                assert(list@.subrange(start as int, i + 1) =~= cur.push(c));
                assert(done.push(cur).update(done.len() as int, cur.push(c)) =~= done.push(cur.push(c)));
            }
        }
        i = i + 1;
    }
    let piece = list.substring_char(start, n);
    keep_if_usable(&mut out, piece);
    proof {
        assert(list@.take(n as int) =~= list@);
        assert(done.push(piece@).drop_last() =~= done);
    }
    out
}


/// The discovery configuration handed to the networking layer.
#[derive(Debug)]
pub enum DiscoveryConfig {
    /// DHT-based discovery, with no namespace restriction.
    Dht,
    /// Namespace discovery restricted to one rendezvous point.
    RendezvousPoint { address: PeerAddress },
    /// Discovery through a list of relays.
    Shuttle { addresses: Vec<PeerAddress> },
    /// No discovery at all.
    Disabled,
}

/// A discovery configuration with its addresses as texts.
pub enum DiscoveryView {
    Dht,
    RendezvousPoint(Seq<char>),
    Shuttle(Seq<Seq<char>>),
    Disabled,
}

impl View for DiscoveryConfig {
    type V = DiscoveryView;

    open spec fn view(&self) -> DiscoveryView {
        match self {
            DiscoveryConfig::Dht => DiscoveryView::Dht,
            DiscoveryConfig::RendezvousPoint { address } => DiscoveryView::RendezvousPoint(address.text@),
            DiscoveryConfig::Shuttle { addresses } => DiscoveryView::Shuttle(address_texts(addresses@)),
            DiscoveryConfig::Disabled => DiscoveryView::Disabled,
        }
    }
}

/// The text of an optional override.
pub open spec fn override_view(o: Option<String>) -> Option<Seq<char>> {
    match o {
        Some(t) => Some(t@),
        None => None,
    }
}

/// The relays used when no override gives a usable one.
pub open spec fn default_shuttle_addresses() -> Seq<Seq<char>> {
    usable_only(seq![DEFAULT_SHUTTLE_ADDRESS@])
}

/// The usable addresses that an override lists, none when it is absent.
pub open spec fn override_addresses(o: Option<Seq<char>>) -> Seq<Seq<char>> {
    match o {
        Some(t) => usable_only(comma_pieces(t)),
        None => Seq::<Seq<char>>::empty(),
    }
}

/// The relays of the shuttle discovery: those of the override when it
/// lists at least one usable address, else the default ones.
pub open spec fn shuttle_addresses(o: Option<Seq<char>>) -> Seq<Seq<char>> {
    if override_addresses(o).len() > 0 {
        override_addresses(o)
    } else {
        default_shuttle_addresses()
    }
}

/// What a discovery mode resolves to, given the override of the relay list.
pub open spec fn resolve_spec(mode: DiscoveryMode, o: Option<Seq<char>>) -> Result<DiscoveryView, ConfigError> {
    match mode {
        DiscoveryMode::Full => Ok(DiscoveryView::Dht),
        DiscoveryMode::RzPoint { address } => if is_usable_address(address@) {
            Ok(DiscoveryView::RendezvousPoint(address@))
        } else {
            Err(ConfigError::InvalidAddress)
        },
        DiscoveryMode::Shuttle => Ok(DiscoveryView::Shuttle(shuttle_addresses(o))),
        DiscoveryMode::Disable => Ok(DiscoveryView::Disabled),
    }
}

/// Maps a discovery mode to the configuration of the networking layer.
/// `shuttle_override` is a comma-separated relay list that replaces the
/// default relays when at least one of its entries is a usable address.
pub fn resolve(mode: &DiscoveryMode, shuttle_override: &Option<String>) -> (r: Result<DiscoveryConfig, ConfigError>)
    ensures
        match r {
            Ok(c) => resolve_spec(*mode, override_view(*shuttle_override)) == Ok::<DiscoveryView, ConfigError>(c@),
            Err(e) => resolve_spec(*mode, override_view(*shuttle_override)) == Err::<DiscoveryView, ConfigError>(e),
        },
{
    match mode {
        DiscoveryMode::Full => Ok(DiscoveryConfig::Dht),
        DiscoveryMode::RzPoint { address } => match parse_peer_address(address.as_str()) {
            Some(a) => Ok(DiscoveryConfig::RendezvousPoint { address: a }),
            None => Err(ConfigError::InvalidAddress),
        },
        DiscoveryMode::Shuttle => {
            let given = match shuttle_override {
                Some(t) => parse_address_list(t.as_str()),
                None => {
                    let v: Vec<PeerAddress> = Vec::new();
                    assert(address_texts(v@) =~= Seq::<Seq<char>>::empty());
                    v
                },
            };
            if given.len() > 0 {
                Ok(DiscoveryConfig::Shuttle { addresses: given })
            } else {
                let mut fallback: Vec<PeerAddress> = Vec::new();
                keep_if_usable(&mut fallback, DEFAULT_SHUTTLE_ADDRESS);
                proof {
                    let one = seq![DEFAULT_SHUTTLE_ADDRESS@];
                    assert(one.drop_last() =~= Seq::<Seq<char>>::empty());
                    assert(address_texts(Seq::<PeerAddress>::empty()) =~= Seq::<Seq<char>>::empty());
                    assert(usable_only(one.drop_last()) == Seq::<Seq<char>>::empty());
                    assert(one.last() == DEFAULT_SHUTTLE_ADDRESS@);
                    assert(Seq::<Seq<char>>::empty().push(DEFAULT_SHUTTLE_ADDRESS@) =~= one);
                    assert(address_texts(fallback@) == default_shuttle_addresses());
                }
                Ok(DiscoveryConfig::Shuttle { addresses: fallback })
            }
        },
        DiscoveryMode::Disable => Ok(DiscoveryConfig::Disabled),
    }
}

/// Resolving depends on nothing but the mode and the override: equal
/// inputs give equal configurations, and no input is refused but a fixed
/// discovery point that is not a usable address.
pub proof fn resolve_is_deterministic(m1: DiscoveryMode, m2: DiscoveryMode, o1: Option<Seq<char>>, o2: Option<Seq<char>>)
    requires
        m1 == m2,
        o1 == o2,
    ensures
        resolve_spec(m1, o1) == resolve_spec(m2, o2),
        resolve_spec(m1, o1) is Err <==> (m1 is RzPoint && !is_usable_address(m1->address@)),
{
}

/// An absent override, or one in which no entry is a usable address, leaves
/// the shuttle discovery on its default relays.
pub proof fn shuttle_falls_back_to_default(o: Option<Seq<char>>)
    requires
        o matches Some(t) ==> usable_only(comma_pieces(t)).len() == 0,
    ensures
        resolve_spec(DiscoveryMode::Shuttle, o) == Ok::<DiscoveryView, ConfigError>(
            DiscoveryView::Shuttle(default_shuttle_addresses()),
        ),
{
}

/// An override with at least one usable entry replaces the default relays
/// entirely by its usable entries, in their order.
pub proof fn shuttle_override_replaces_default(t: Seq<char>)
    requires
        usable_only(comma_pieces(t)).len() > 0,
    ensures
        resolve_spec(DiscoveryMode::Shuttle, Some(t)) == Ok::<DiscoveryView, ConfigError>(
            DiscoveryView::Shuttle(usable_only(comma_pieces(t))),
        ),
{
}

} // verus!
