//! Declarative multicast configuration of a session.
use vstd::prelude::*;
use vstd::string::StringExecFns;
use crate::error::Error;
use crate::native::{c_text, extends, since, CallModel, Native};
use crate::session::Session;

verus! {

/// One multicast option to set on a session, as contracts speak of it.
pub enum SessionOption {
    /// Multicast time-to-live.
    Ttl(u8),
    /// Whether multicast traffic loops back to this host.
    MulticastLoopback(bool),
    /// The interface multicast traffic uses.
    Interface(Seq<char>),
    /// The source of source-specific multicast.
    Ssm(Seq<char>),
    /// The IP type-of-service byte.
    Tos(u8),
}

/// The invocation that sets option `o` on session `s`, with reply `ok`.
pub open spec fn option_call(s: u64, o: SessionOption, ok: bool) -> CallModel {
    match o {
        SessionOption::Ttl(ttl) => CallModel::SetTtl { session: s, ttl, result: ok },
        SessionOption::MulticastLoopback(enable) => CallModel::SetMulticastLoopback {
            session: s,
            enable,
            result: ok,
        },
        SessionOption::Interface(name) => CallModel::SetMulticastInterface {
            session: s,
            interface: name,
            result: ok,
        },
        SessionOption::Ssm(source) => CallModel::SetSsm { session: s, source, result: ok },
        SessionOption::Tos(tos) => CallModel::SetTos { session: s, tos, result: ok },
    }
}

/// The engine's reply recorded in an option-setting invocation.
pub open spec fn option_reply(c: CallModel) -> bool {
    match c {
        CallModel::SetTtl { result, .. } => result,
        CallModel::SetMulticastLoopback { result, .. } => result,
        CallModel::SetMulticastInterface { result, .. } => result,
        CallModel::SetSsm { result, .. } => result,
        CallModel::SetTos { result, .. } => result,
        _ => false,
    }
}

/// Whether the option's text, if any, can be handed to the engine.
pub open spec fn option_text_ok(o: SessionOption) -> bool {
    match o {
        SessionOption::Interface(name) => c_text(name),
        SessionOption::Ssm(source) => c_text(source),
        _ => true,
    }
}

/// Setting `opts` on session `s`, in order, invoked `d` and answered `r`:
/// one invocation per option until the engine refuses one
/// (`OperationFailed`) or an option's text holds a NUL (`InvalidString`,
/// without invoking anything for it); `Ok` when every option was accepted.
pub open spec fn applied(opts: Seq<SessionOption>, s: u64, d: Seq<CallModel>, r: Result<(), Error>) -> bool
    decreases opts.len(),
{
    if opts.len() == 0 {
        d.len() == 0 && r is Ok
    } else if !option_text_ok(opts[0]) {
        d.len() == 0 && r == Err::<(), Error>(Error::InvalidString)
    } else {
        &&& d.len() >= 1
        &&& d[0] == option_call(s, opts[0], option_reply(d[0]))
        &&& if option_reply(d[0]) {
            applied(opts.drop_first(), s, d.drop_first(), r)
        } else {
            d.len() == 1 && r is Err && r->Err_0 is OperationFailed
        }
    }
}

/// The unit outcome of a chained session call.
pub open spec fn unit_of<T>(r: Result<T, Error>) -> Result<(), Error> {
    match r {
        Ok(_) => Ok(()),
        Err(e) => Err(e),
    }
}

/// Applying one option (or none) and then the rest is applying them all.
proof fn applied_append(
    a: Seq<SessionOption>,
    b: Seq<SessionOption>,
    s: u64,
    d1: Seq<CallModel>,
    r1: Result<(), Error>,
    d2: Seq<CallModel>,
    r2: Result<(), Error>,
)
    requires
        a.len() <= 1,
        applied(a, s, d1, r1),
        r1 is Ok ==> applied(b, s, d2, r2),
    ensures
        r1 is Ok ==> applied(a + b, s, d1 + d2, r2),
        r1 is Err ==> applied(a + b, s, d1, r1),
{
    reveal_with_fuel(applied, 2);
    if a.len() == 0 {
        assert(a + b =~= b);
        assert(d1 + d2 =~= d2);
    } else {
        assert((a + b)[0] == a[0]);
        if option_text_ok(a[0]) {
            assert((d1 + d2)[0] == d1[0]);
            assert((a + b).drop_first() =~= b);
            if option_reply(d1[0]) {
                assert(a.drop_first() =~= Seq::<SessionOption>::empty());
                assert(d1.drop_first().len() == 0);
                assert((d1 + d2).drop_first() =~= d2);
            }
        }
    }
}

/// A pending set of multicast options for a session, each independently
/// optional. Applying it sets the options that are present, in the order
/// TTL, loopback, interface, SSM source, TOS, and leaves the others alone.
#[derive(Debug, Clone)]
pub struct MulticastConfig {
    /// The group address.
    pub address: String,
    /// The port.
    pub port: u16,
    /// The interface multicast traffic uses.
    pub interface: Option<String>,
    /// The multicast time-to-live.
    pub ttl: Option<u8>,
    /// Whether multicast traffic loops back to this host.
    pub loopback: Option<bool>,
    /// The source of source-specific multicast.
    pub ssm_source: Option<String>,
    /// The IP type-of-service byte.
    pub tos: Option<u8>,
}

/// The text an optional string holds.
pub open spec fn text_of(s: Option<String>) -> Option<Seq<char>> {
    match s {
        Some(t) => Some(t@),
        None => None,
    }
}

impl MulticastConfig {
    /// The option applied at `stage` (0 to 4), if that field is set.
    pub open spec fn option_at(&self, stage: nat) -> Seq<SessionOption> {
        if stage == 0 {
            match self.ttl {
                Some(t) => seq![SessionOption::Ttl(t)],
                None => seq![],
            }
        } else if stage == 1 {
            match self.loopback {
                Some(b) => seq![SessionOption::MulticastLoopback(b)],
                None => seq![],
            }
        } else if stage == 2 {
            match self.interface {
                Some(name) => seq![SessionOption::Interface(name@)],
                None => seq![],
            }
        } else if stage == 3 {
            match self.ssm_source {
                Some(source) => seq![SessionOption::Ssm(source@)],
                None => seq![],
            }
        } else if stage == 4 {
            match self.tos {
                Some(t) => seq![SessionOption::Tos(t)],
                None => seq![],
            }
        } else {
            seq![]
        }
    }

    /// The options applied from `stage` on.
    pub open spec fn options_from(&self, stage: nat) -> Seq<SessionOption>
        decreases 5 - stage,
    {
        if stage >= 5 {
            seq![]
        } else {
            self.option_at(stage) + self.options_from(stage + 1)
        }
    }

    /// The options that applying the configuration sets, in order.
    pub open spec fn options(&self) -> Seq<SessionOption> {
        self.options_from(0)
    }

    /// A configuration for `address:port` with no option set.
    pub fn new(address: &str, port: u16) -> (r: MulticastConfig)
        ensures
            r.address@ == address@,
            r.port == port,
            r.interface is None,
            r.ttl is None,
            r.loopback is None,
            r.ssm_source is None,
            r.tos is None,
    {
        MulticastConfig {
            address: String::from_str(address),
            port,
            interface: None,
            ttl: None,
            loopback: None,
            ssm_source: None,
            tos: None,
        }
    }

    /// Sets the interface; every other field is kept.
    pub fn interface(self, interface: &str) -> (r: MulticastConfig)
        ensures
            r.address@ == self.address@,
            r.port == self.port,
            text_of(r.interface) == Some(interface@),
            r.ttl == self.ttl,
            r.loopback == self.loopback,
            text_of(r.ssm_source) == text_of(self.ssm_source),
            r.tos == self.tos,
    {
        let mut c = self;
        c.interface = Some(String::from_str(interface));
        c
    }

    /// Sets the time-to-live; every other field is kept.
    pub fn ttl(self, ttl: u8) -> (r: MulticastConfig)
        ensures
            r.address@ == self.address@,
            r.port == self.port,
            text_of(r.interface) == text_of(self.interface),
            r.ttl == Some(ttl),
            r.loopback == self.loopback,
            text_of(r.ssm_source) == text_of(self.ssm_source),
            r.tos == self.tos,
    {
        let mut c = self;
        c.ttl = Some(ttl);
        c
    }

    /// Sets multicast loopback; every other field is kept.
    pub fn loopback(self, enable: bool) -> (r: MulticastConfig)
        ensures
            r.address@ == self.address@,
            r.port == self.port,
            text_of(r.interface) == text_of(self.interface),
            r.ttl == self.ttl,
            r.loopback == Some(enable),
            text_of(r.ssm_source) == text_of(self.ssm_source),
            r.tos == self.tos,
    {
        let mut c = self;
        c.loopback = Some(enable);
        c
    }

    /// Sets the source-specific multicast source; every other field is kept.
    pub fn ssm_source(self, source: &str) -> (r: MulticastConfig)
        ensures
            r.address@ == self.address@,
            r.port == self.port,
            text_of(r.interface) == text_of(self.interface),
            r.ttl == self.ttl,
            r.loopback == self.loopback,
            text_of(r.ssm_source) == Some(source@),
            r.tos == self.tos,
    {
        let mut c = self;
        c.ssm_source = Some(String::from_str(source));
        c
    }

    /// Sets the type-of-service byte; every other field is kept.
    pub fn tos(self, tos: u8) -> (r: MulticastConfig)
        ensures
            r.address@ == self.address@,
            r.port == self.port,
            text_of(r.interface) == text_of(self.interface),
            r.ttl == self.ttl,
            r.loopback == self.loopback,
            text_of(r.ssm_source) == text_of(self.ssm_source),
            r.tos == Some(tos),
    {
        let mut c = self;
        c.tos = Some(tos);
        c
    }

    /// The group address.
    pub fn address(&self) -> (r: &str)
        ensures
            r@ == self.address@,
    {
        self.address.as_str()
    }

    /// The port.
    pub fn port(&self) -> (r: u16)
        ensures
            r == self.port,
    {
        self.port
    }

    /// Sets the option of one stage, if its field is set.
    fn apply_stage<E: Native>(&self, session: &Session, e: &mut E, stage: u8) -> (r: Result<(), Error>)
        requires
            stage < 5,
        ensures
            extends(old(e).calls(), final(e).calls()),
            applied(self.option_at(stage as nat), session.spec_handle(), since(old(e).calls(), final(e).calls()), r),
    {
        let ghost before = e.calls();
        let ghost s = session.spec_handle();
        let r = if stage == 0 {
            match self.ttl {
                Some(t) => unit(session.set_ttl(e, t)),
                None => Ok(()),
            }
        } else if stage == 1 {
            match self.loopback {
                Some(b) => unit(session.set_multicast_loopback(e, b)),
                None => Ok(()),
            }
        } else if stage == 2 {
            match &self.interface {
                Some(name) => unit(session.set_multicast_interface(e, name.as_str())),
                None => Ok(()),
            }
        } else if stage == 3 {
            match &self.ssm_source {
                Some(source) => unit(session.set_ssm(e, source.as_str())),
                None => Ok(()),
            }
        } else {
            match self.tos {
                Some(t) => unit(session.set_tos(e, t)),
                None => Ok(()),
            }
        };
        let ghost d = since(before, e.calls());
        let ghost opts = self.option_at(stage as nat);
        proof {
            reveal_with_fuel(applied, 2);
            if e.calls().len() == before.len() {
                assert(d =~= Seq::<CallModel>::empty());
            } else {
                assert(d =~= seq![e.calls().last()]);
                assert(d.drop_first() =~= Seq::<CallModel>::empty());
                assert(opts.drop_first() =~= Seq::<SessionOption>::empty());
            }
        }
        r
    }

    /// Sets the options from `stage` on.
    fn apply_from<E: Native>(&self, session: &Session, e: &mut E, stage: u8) -> (r: Result<(), Error>)
        requires
            stage <= 5,
        ensures
            extends(old(e).calls(), final(e).calls()),
            applied(self.options_from(stage as nat), session.spec_handle(), since(old(e).calls(), final(e).calls()), r),
        decreases 5 - stage,
    {
        let ghost before = e.calls();
        if stage >= 5 {
            assert(since(before, e.calls()) =~= Seq::<CallModel>::empty());
            return Ok(());
        }
        let first = self.apply_stage(session, e, stage);
        let ghost mid = e.calls();
        let ghost d1 = since(before, mid);
        match first {
            Err(err) => {
                proof {
                    applied_append(
                        self.option_at(stage as nat),
                        self.options_from(stage as nat + 1),
                        session.spec_handle(),
                        d1,
                        first,
                        Seq::empty(),
                        Ok(()),
                    );
                }
                Err(err)
            },
            Ok(()) => {
                let rest = self.apply_from(session, e, stage + 1);
                proof {
                    let d2 = since(mid, e.calls());
                    applied_append(
                        self.option_at(stage as nat),
                        self.options_from(stage as nat + 1),
                        session.spec_handle(),
                        d1,
                        first,
                        d2,
                        rest,
                    );
                    assert(since(before, e.calls()) =~= d1 + d2);
                }
                rest
            },
        }
    }

    /// Applies the configuration to `session`: one engine call per option
    /// that is set, in the order TTL, loopback, interface, SSM source, TOS,
    /// stopping at the first that fails.
    pub fn apply<E: Native>(&self, session: &Session, e: &mut E) -> (r: Result<(), Error>)
        ensures
            extends(old(e).calls(), final(e).calls()),
            applied(self.options(), session.spec_handle(), since(old(e).calls(), final(e).calls()), r),
    {
        self.apply_from(session, e, 0)
    }
}

/// The unit outcome of a chained session call.
fn unit(r: Result<&Session, Error>) -> (u: Result<(), Error>)
    ensures
        u == unit_of(r),
{
    match r {
        Ok(_) => Ok(()),
        Err(e) => Err(e),
    }
}

/// Extension of sessions with multicast configuration.
pub trait MulticastExt {
    /// The session's native handle.
    spec fn session_handle(&self) -> u64;

    /// Applies `config` (see [`MulticastConfig::apply`]) and hands the
    /// session back for chaining.
    fn with_multicast<E: Native>(&self, e: &mut E, config: &MulticastConfig) -> (r: Result<&Self, Error>)
        ensures
            extends(old(e).calls(), final(e).calls()),
            applied(config.options(), self.session_handle(), since(old(e).calls(), final(e).calls()), unit_of(r)),
            r is Ok ==> r->Ok_0 == self,
    ;
}

impl MulticastExt for Session {
    open spec fn session_handle(&self) -> u64 {
        self.spec_handle()
    }

    fn with_multicast<E: Native>(&self, e: &mut E, config: &MulticastConfig) -> (r: Result<&Self, Error>) {
        let res = config.apply(self, e);
        match res {
            Ok(()) => {
                let ghost unit_value: () = res->Ok_0;
                assert(unit_value == ());
                assert(res =~= Ok::<(), Error>(()));
                Ok(self)
            },
            Err(err) => Err(err),
        }
    }
}

/// Applying options invokes nothing but their setters, each at most once
/// and in the options' order.
pub proof fn applied_calls_follow_options(opts: Seq<SessionOption>, s: u64, d: Seq<CallModel>, r: Result<(), Error>)
    requires
        applied(opts, s, d, r),
    ensures
        d.len() <= opts.len(),
        forall|i: int| 0 <= i < d.len() ==> d[i] == option_call(s, opts[i], option_reply(d[i])),
    decreases opts.len(),
{
    if opts.len() > 0 && option_text_ok(opts[0]) && option_reply(d[0]) {
        applied_calls_follow_options(opts.drop_first(), s, d.drop_first(), r);
        assert forall|i: int| 0 <= i < d.len() implies d[i] == option_call(s, opts[i], option_reply(d[i])) by {
            if i > 0 {
                assert(d[i] == d.drop_first()[i - 1]);
                assert(opts[i] == opts.drop_first()[i - 1]);
            }
        }
    }
}

/// Applying a configuration invokes only the setters of the fields that are
/// set, each at most once, in the order TTL, loopback, interface, SSM
/// source, TOS.
pub proof fn apply_sets_only_present_fields(c: MulticastConfig, s: u64, d: Seq<CallModel>, r: Result<(), Error>)
    requires
        applied(c.options(), s, d, r),
    ensures
        d.len() <= c.options().len(),
        forall|i: int| 0 <= i < d.len() ==> d[i] == option_call(s, c.options()[i], option_reply(d[i])),
{
    applied_calls_follow_options(c.options(), s, d, r);
}

/// A configuration with only the TTL set makes exactly one invocation when
/// applied, the TTL setter, whatever the engine replies.
pub proof fn ttl_only_makes_one_call(c: MulticastConfig, s: u64, d: Seq<CallModel>, r: Result<(), Error>)
    requires
        c.ttl is Some,
        c.loopback is None,
        c.interface is None,
        c.ssm_source is None,
        c.tos is None,
        applied(c.options(), s, d, r),
    ensures
        d.len() == 1,
        d[0] == (CallModel::SetTtl { session: s, ttl: c.ttl->Some_0, result: option_reply(d[0]) }),
{
    reveal_with_fuel(MulticastConfig::options_from, 6);
    reveal_with_fuel(applied, 2);
    let opts = c.options();
    assert(opts =~= seq![SessionOption::Ttl(c.ttl->Some_0)]);
    if option_reply(d[0]) {
        assert(opts.drop_first() =~= Seq::<SessionOption>::empty());
    }
}

/// The decimal digits of `n`.
pub open spec fn decimal(n: nat) -> Seq<char>
    decreases n,
{
    if n < 10 {
        seq![digit_char(n)]
    } else {
        decimal(n / 10) + seq![digit_char(n % 10)]
    }
}

/// The character of a decimal digit.
pub open spec fn digit_char(d: nat) -> char {
    if d == 0 {
        '0'
    } else if d == 1 {
        '1'
    } else if d == 2 {
        '2'
    } else if d == 3 {
        '3'
    } else if d == 4 {
        '4'
    } else if d == 5 {
        '5'
    } else if d == 6 {
        '6'
    } else if d == 7 {
        '7'
    } else if d == 8 {
        '8'
    } else {
        '9'
    }
}

/// The text of a flag.
pub open spec fn flag_text(b: bool) -> Seq<char> {
    if b {
        seq!['t', 'r', 'u', 'e']
    } else {
        seq!['f', 'a', 'l', 's', 'e']
    }
}

/// `text` prefixed by `label` when present, nothing otherwise.
pub open spec fn labelled(label: Seq<char>, text: Option<Seq<char>>) -> Seq<char> {
    match text {
        Some(t) => label + t,
        None => seq![],
    }
}

/// A digit as text.
fn digit_str(d: u32) -> (r: &'static str)
    requires
        d < 10,
    ensures
        r@ == seq![digit_char(d as nat)],
{
    proof {
        reveal_strlit("0");
        reveal_strlit("1");
        reveal_strlit("2");
        reveal_strlit("3");
        reveal_strlit("4");
        reveal_strlit("5");
        reveal_strlit("6");
        reveal_strlit("7");
        reveal_strlit("8");
        reveal_strlit("9");
    }
    if d == 0 {
        "0"
    } else if d == 1 {
        "1"
    } else if d == 2 {
        "2"
    } else if d == 3 {
        "3"
    } else if d == 4 {
        "4"
    } else if d == 5 {
        "5"
    } else if d == 6 {
        "6"
    } else if d == 7 {
        "7"
    } else if d == 8 {
        "8"
    } else {
        "9"
    }
}

/// Appends the decimal digits of `n`.
fn append_decimal(s: &mut String, n: u32)
    ensures
        final(s)@ == old(s)@ + decimal(n as nat),
    decreases n,
{
    if n >= 10 {
        append_decimal(s, n / 10);
    }
    s.append(digit_str(n % 10));
    assert(n < 10 ==> decimal(n as nat) == seq![digit_char(n as nat)]);
}

/// Appends the text of a flag.
fn append_flag(s: &mut String, b: bool)
    ensures
        final(s)@ == old(s)@ + flag_text(b),
{
    proof {
        reveal_strlit("true");
        reveal_strlit("false");
    }
    if b {
        s.append("true");
    } else {
        s.append("false");
    }
}

/// The decimal text of an optional number.
pub open spec fn decimal_of(n: Option<u8>) -> Option<Seq<char>> {
    match n {
        Some(t) => Some(decimal(t as nat)),
        None => None,
    }
}

/// The text of an optional flag.
pub open spec fn flag_of(b: Option<bool>) -> Option<Seq<char>> {
    match b {
        Some(f) => Some(flag_text(f)),
        None => None,
    }
}

/// Appends `label` and the text, if present.
fn append_text_option(s: &mut String, label: &str, text: &Option<String>)
    ensures
        final(s)@ == old(s)@ + labelled(label@, text_of(*text)),
{
    match text {
        Some(t) => {
            s.append(label);
            s.append(t.as_str());
        },
        None => {},
    }
}

/// Appends `label` and the number, if present.
fn append_number_option(s: &mut String, label: &str, n: Option<u8>)
    ensures
        final(s)@ == old(s)@ + labelled(label@, decimal_of(n)),
{
    match n {
        Some(t) => {
            s.append(label);
            append_decimal(s, t as u32);
        },
        None => {},
    }
}

/// Appends `label` and the flag, if present.
fn append_flag_option(s: &mut String, label: &str, b: Option<bool>)
    ensures
        final(s)@ == old(s)@ + labelled(label@, flag_of(b)),
{
    match b {
        Some(f) => {
            s.append(label);
            append_flag(s, f);
        },
        None => {},
    }
}

impl MulticastConfig {
    /// The configuration as text: `address:port`, then each option that is
    /// set, as ` on <interface>`, ` ttl=<n>`, ` loopback=<flag>`,
    /// ` ssm_source=<address>`, ` tos=<n>`.
    pub open spec fn describe(&self) -> Seq<char> {
        self.address@ + ":"@ + decimal(self.port as nat)
            + labelled(" on "@, text_of(self.interface))
            + labelled(" ttl="@, decimal_of(self.ttl))
            + labelled(" loopback="@, flag_of(self.loopback))
            + labelled(" ssm_source="@, text_of(self.ssm_source))
            + labelled(" tos="@, decimal_of(self.tos))
    }

    /// The configuration as text; see [`MulticastConfig::describe`].
    pub fn to_string(&self) -> (r: String)
        ensures
            r@ == self.describe(),
    {
        let mut s = String::from_str(self.address.as_str());
        s.append(":");
        append_decimal(&mut s, self.port as u32);
        append_text_option(&mut s, " on ", &self.interface);
        append_number_option(&mut s, " ttl=", self.ttl);
        append_flag_option(&mut s, " loopback=", self.loopback);
        append_text_option(&mut s, " ssm_source=", &self.ssm_source);
        append_number_option(&mut s, " tos=", self.tos);
        s
    }
}

} // verus!
