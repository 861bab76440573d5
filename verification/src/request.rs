//! The request facade: a plain-value model of the host-owned request
//! record, with safe accessors and mutators for identity, headers, status,
//! body operations and the peer address.
//!
//! The host owns the record, its arena and its connection; the facade only
//! reads and writes through them during one synchronous callback.  Host
//! operations (header emission, body discard, output filtering) are
//! synchronous calls whose outcome codes the host reports; the model
//! carries those codes as plain values on the record, so every decision
//! the facade makes about them is verified for whatever the host answers.

use crate::conf::ConfigContext;
use crate::conf::ModuleRecord;
use crate::headers::HeaderEntry;
use crate::headers::HeaderList;
use crate::headers::find_value;
use crate::headers::fold_seq;
use crate::headers::join_names;
use crate::headers::name_list;
use crate::pool::Pool;
use crate::pool::StringView;
use crate::pool::copy_bytes;
use crate::status::Status;
use vstd::prelude::*;

verus! {

/// Upper bound of the peer-address text the host formats: wide enough for
/// both address-family text forms.
pub const ADDR_TEXT_MAX: usize = 128;

/// The client connection as far as this facade reads it: the text the
/// host's address formatter yields for the peer socket address, and the
/// connection's pre-rendered address text.
pub struct Connection {
    pub formatted_addr: Vec<u8>,
    pub addr_text: StringView,
}

/// A precompiled host-side expression template, carrying the text its
/// evaluation against this request yields, or absence when the host
/// reports failure.
pub struct ComplexValue {
    pub value: Option<Vec<u8>>,
}

/// One outbound body buffer.  The caller marks the final buffer of a
/// response with `last_buf`.
pub struct Buffer {
    pub bytes: Vec<u8>,
    pub last_buf: bool,
}

/// The parsed inbound headers: dedicated fast-path fields for the commonly
/// pre-parsed names, and the full chunked chain for everything else.
pub struct HeadersIn {
    pub host: Option<Vec<u8>>,
    pub user_agent: Option<Vec<u8>>,
    pub referer: Option<Vec<u8>>,
    pub accept_language: Option<Vec<u8>>,
    pub content_type: Option<Vec<u8>>,
    pub content_length: Option<Vec<u8>>,
    pub accept: Option<Vec<u8>>,
    pub headers: HeaderList,
}

/// The outbound response fields this facade writes.
pub struct HeadersOut {
    pub status: u64,
    pub content_length_n: usize,
    pub headers: HeaderList,
}

/// The outcome codes the host reports for the synchronous operations the
/// facade invokes on its behalf.
pub struct HostOutcomes {
    pub send_header: i64,
    pub discard_body: i64,
    pub output_filter: i64,
}

/// The request record, modeled by value.  `own_addr` is the record's own
/// address and `main` the address stored in its main back-reference; the
/// host compares addresses, not logical identifiers.
pub struct Request {
    pub own_addr: u64,
    pub main: u64,
    pub pool: Pool,
    pub connection: Connection,
    pub conf: ConfigContext,
    pub headers_in: HeadersIn,
    pub headers_out: HeadersOut,
    pub uri: StringView,
    pub args: StringView,
    pub header_only: bool,
    pub body_discarded: bool,
    pub sent_status: Option<u64>,
    pub output: Vec<Buffer>,
    pub host: HostOutcomes,
}

/// The bytes behind an optional owned byte string.
pub open spec fn opt_bytes(o: Option<Vec<u8>>) -> Option<Seq<u8>> {
    match o {
        Some(v) => Some(v@),
        None => None,
    }
}

/// Lookup results surface an empty value as absence.
pub open spec fn strip_empty(o: Option<Seq<u8>>) -> Option<Seq<u8>> {
    match o {
        Some(v) => if v.len() == 0 {
            None
        } else {
            Some(v)
        },
        None => None,
    }
}

/// Underscore read as dash, so that the underscored alias of a dedicated
/// header name reaches the same field as the canonical form.
pub open spec fn swap_underscore(c: u8) -> u8 {
    if c == 95 {
        45u8
    } else {
        c
    }
}

/// A name with every underscore read as a dash.
pub open spec fn normalize(s: Seq<u8>) -> Seq<u8> {
    s.map_values(|c: u8| swap_underscore(c))
}

pub open spec fn name_host() -> Seq<u8> {
    seq![104u8, 111u8, 115u8, 116u8]
}

pub open spec fn name_user_agent() -> Seq<u8> {
    seq![117u8, 115u8, 101u8, 114u8, 45u8, 97u8, 103u8, 101u8, 110u8, 116u8]
}

pub open spec fn name_referer() -> Seq<u8> {
    seq![114u8, 101u8, 102u8, 101u8, 114u8, 101u8, 114u8]
}

pub open spec fn name_accept_language() -> Seq<u8> {
    seq![
        97u8,
        99u8,
        99u8,
        101u8,
        112u8,
        116u8,
        45u8,
        108u8,
        97u8,
        110u8,
        103u8,
        117u8,
        97u8,
        103u8,
        101u8,
    ]
}

pub open spec fn name_content_type() -> Seq<u8> {
    seq![99u8, 111u8, 110u8, 116u8, 101u8, 110u8, 116u8, 45u8, 116u8, 121u8, 112u8, 101u8]
}

pub open spec fn name_content_length() -> Seq<u8> {
    seq![99u8, 111u8, 110u8, 116u8, 101u8, 110u8, 116u8, 45u8, 108u8, 101u8, 110u8, 103u8, 116u8, 104u8]
}

pub open spec fn name_accept() -> Seq<u8> {
    seq![97u8, 99u8, 99u8, 101u8, 112u8, 116u8]
}

/// Whether a folded, normalized name reaches a dedicated fast-path field.
pub open spec fn is_dedicated(n: Seq<u8>) -> bool {
    ||| n == name_host()
    ||| n == name_user_agent()
    ||| n == name_referer()
    ||| n == name_accept_language()
    ||| n == name_content_type()
    ||| n == name_content_length()
    ||| n == name_accept()
}

/// The dedicated field a folded, normalized name reaches, when it does.
pub open spec fn dedicated_value(hin: HeadersIn, n: Seq<u8>) -> Option<Seq<u8>> {
    if n == name_host() {
        opt_bytes(hin.host)
    } else if n == name_user_agent() {
        opt_bytes(hin.user_agent)
    } else if n == name_referer() {
        opt_bytes(hin.referer)
    } else if n == name_accept_language() {
        opt_bytes(hin.accept_language)
    } else if n == name_content_type() {
        opt_bytes(hin.content_type)
    } else if n == name_content_length() {
        opt_bytes(hin.content_length)
    } else {
        opt_bytes(hin.accept)
    }
}

/// What `get_header` yields: the name is case-folded; a dedicated name is
/// read from its fast-path field, any other from the first
/// case-insensitive match in the chain; an empty value is absence.
pub open spec fn get_header_spec(hin: HeadersIn, name: Seq<u8>) -> Option<Seq<u8>> {
    let norm = normalize(fold_seq(name));
    if is_dedicated(norm) {
        strip_empty(dedicated_value(hin, norm))
    } else {
        strip_empty(find_value(hin.headers@, fold_seq(name)))
    }
}

/// What `get_header_names` yields: every non-empty inbound header name in
/// chain order, space-joined, or absence when there is none.
pub open spec fn header_names_spec(hin: HeadersIn) -> Option<Seq<u8>> {
    if name_list(hin.headers@).len() == 0 {
        None
    } else {
        Some(join_names(name_list(hin.headers@)))
    }
}

/// The peer-address text the host's formatter yields, clipped to the
/// fixed buffer bound.
pub open spec fn clipped_addr(c: Connection) -> Seq<u8> {
    if c.formatted_addr@.len() <= ADDR_TEXT_MAX {
        c.formatted_addr@
    } else {
        c.formatted_addr@.take(ADDR_TEXT_MAX as int)
    }
}

/// True exactly when the two byte strings are equal.
fn bytes_eq(a: &Vec<u8>, b: &Vec<u8>) -> (r: bool)
    ensures
        r == (a@ == b@),
{
    if a.len() != b.len() {
        return false;
    }
    let mut i: usize = 0;
    while i < a.len()
        invariant
            a@.len() == b@.len(),
            i <= a@.len(),
            a@.take(i as int) == b@.take(i as int),
        decreases a@.len() - i,
    {
        if a[i] != b[i] {
            proof {
                assert(a@[i as int] != b@[i as int]);
            }
            return false;
        }
        proof {
            assert(a@.take(i + 1) =~= a@.take(i as int).push(a@[i as int]));
            assert(b@.take(i + 1) =~= b@.take(i as int).push(b@[i as int]));
        }
        i = i + 1;
    }
    proof {
        assert(a@ =~= a@.take(a@.len() as int));
        assert(b@ =~= b@.take(b@.len() as int));
    }
    true
}

/// A name with every underscore replaced by a dash.
fn normalize_bytes(v: &Vec<u8>) -> (r: Vec<u8>)
    ensures
        r@ == normalize(v@),
{
    let mut out: Vec<u8> = Vec::new();
    let mut i: usize = 0;
    while i < v.len()
        invariant
            i <= v@.len(),
            out@ == normalize(v@).take(i as int),
        decreases v@.len() - i,
    {
        if v[i] == 95 {
            out.push(45);
        } else {
            out.push(v[i]);
        }
        proof {
            assert(out@ =~= normalize(v@).take(i + 1));
        }
        i = i + 1;
    }
    proof {
        assert(normalize(v@).take(v@.len() as int) =~= normalize(v@));
    }
    out
}

/// Reads a dedicated fast-path field, surfacing absence for a missing
/// field and for an empty value.
fn get_value(field: &Option<Vec<u8>>) -> (r: Option<Vec<u8>>)
    ensures
        opt_bytes(r) == strip_empty(opt_bytes(*field)),
{
    match field {
        None => None,
        Some(v) => if v.len() == 0 {
            None
        } else {
            Some(copy_bytes(v))
        },
    }
}

impl Request {
    /// The arena, the inbound chain and the outbound chain are all well
    /// formed.
    pub open spec fn wf(self) -> bool {
        &&& self.pool.wf()
        &&& self.headers_in.headers.wf()
        &&& self.headers_out.headers.wf()
    }

    /// Is this the top-level request, as opposed to a sub-request?  True
    /// exactly when the main back-reference holds this record's own
    /// address.
    pub fn is_main(&self) -> (r: bool)
        ensures
            r == (self.own_addr == self.main),
    {
        self.own_addr == self.main
    }

    /// The request's arena.
    pub fn pool(&self) -> (r: &Pool)
        ensures
            *r == self.pool,
    {
        &self.pool
    }

    /// The associated client connection.
    pub fn connection(&self) -> (r: &Connection)
        ensures
            *r == self.connection,
    {
        &self.connection
    }

    /// Formats the peer address into a fresh arena buffer and hands the
    /// text back, or absence when the text is empty or the arena lacks
    /// room for it.
    pub fn remote_address(&mut self) -> (r: Option<Vec<u8>>)
        requires
            old(self).pool.wf(),
        ensures
            final(self).pool.wf(),
            *final(self) == (Request { pool: final(self).pool, ..*old(self) }),
            ({
                let text = clipped_addr(old(self).connection);
                if text.len() > old(self).pool.remaining() {
                    &&& r is None
                    &&& final(self).pool == old(self).pool
                } else {
                    &&& Pool::allocate_ok(
                        old(self).pool,
                        final(self).pool,
                        text,
                        old(self).pool.arena().len() as int,
                    )
                    &&& match r {
                        None => text.len() == 0,
                        Some(v) => text.len() > 0 && v@ == text,
                    }
                }
            }),
    {
        let mut text: Vec<u8> = Vec::new();
        let src = &self.connection.formatted_addr;
        let bound = if src.len() <= ADDR_TEXT_MAX {
            src.len()
        } else {
            ADDR_TEXT_MAX
        };
        let mut i: usize = 0;
        while i < bound
            invariant
                bound <= src@.len(),
                i <= bound,
                text@ == src@.take(i as int),
            decreases bound - i,
        {
            text.push(src[i]);
            proof {
                assert(src@.take(i + 1) =~= src@.take(i as int).push(src@[i as int]));
            }
            i = i + 1;
        }
        proof {
            assert(text@ =~= clipped_addr(self.connection));
        }
        match self.pool.allocate(text) {
            None => None,
            Some(h) => {
                let view = StringView::from_allocation(&self.pool, h);
                if view.is_empty() {
                    None
                } else {
                    Some(view.bytes)
                }
            },
        }
    }

    /// The module's location-level configuration block of this request.
    pub fn get_module_loc_conf(&self, module: &ModuleRecord) -> (r: u64)
        requires
            module.ctx_index < self.conf.loc_conf@.len(),
        ensures
            r == self.conf.loc_conf@[module.ctx_index as int],
    {
        crate::conf::ngx_http_conf_get_module_loc_conf(&self.conf, module)
    }

    /// The module's main-level configuration block of this request.
    pub fn get_module_main_conf(&self, module: &ModuleRecord) -> (r: u64)
        requires
            module.ctx_index < self.conf.main_conf@.len(),
        ensures
            r == self.conf.main_conf@[module.ctx_index as int],
    {
        crate::conf::ngx_http_conf_get_module_main_conf(&self.conf, module)
    }

    /// The text the host's evaluation of a precompiled expression yields
    /// for this request, or absence when the host reports failure.
    pub fn get_complex_value(&self, cv: &ComplexValue) -> (r: Option<Vec<u8>>)
        ensures
            opt_bytes(r) == opt_bytes(cv.value),
    {
        match &cv.value {
            None => None,
            Some(v) => Some(copy_bytes(v)),
        }
    }

    /// Instructs the host to read and drop any inbound body, and hands its
    /// reported outcome back.
    pub fn discard_request_body(&mut self) -> (r: Status)
        ensures
            *final(self) == (Request { body_discarded: true, ..*old(self) }),
            r.0 == old(self).host.discard_body,
    {
        self.body_discarded = true;
        Status(self.host.discard_body)
    }

    /// The parsed User-Agent field, read directly rather than through the
    /// generic lookup.
    pub fn user_agent(&self) -> (r: &Vec<u8>)
        requires
            self.headers_in.user_agent is Some,
        ensures
            Some(r@) == opt_bytes(self.headers_in.user_agent),
    {
        match &self.headers_in.user_agent {
            Some(v) => v,
            None => vstd::pervasive::unreached(),
        }
    }

    /// Every non-empty inbound header name, space-joined, or absence when
    /// the chain holds none.
    pub fn get_header_names(&self) -> (r: Option<Vec<u8>>)
        ensures
            opt_bytes(r) == header_names_spec(self.headers_in),
    {
        self.headers_in.headers.names_joined()
    }

    /// An inbound header by name, case-insensitively: a dedicated name
    /// (canonical or underscored) is read from its fast-path field, any
    /// other from the first match in the chunked chain; an empty value is
    /// absence.
    pub fn get_header(&self, header: &Vec<u8>) -> (r: Option<Vec<u8>>)
        ensures
            opt_bytes(r) == get_header_spec(self.headers_in, header@),
    {
        let folded = crate::headers::fold_bytes(header);
        let norm = normalize_bytes(&folded);
        if bytes_eq(&norm, &name_host_vec()) {
            get_value(&self.headers_in.host)
        } else if bytes_eq(&norm, &name_user_agent_vec()) {
            get_value(&self.headers_in.user_agent)
        } else if bytes_eq(&norm, &name_referer_vec()) {
            get_value(&self.headers_in.referer)
        } else if bytes_eq(&norm, &name_accept_language_vec()) {
            get_value(&self.headers_in.accept_language)
        } else if bytes_eq(&norm, &name_content_type_vec()) {
            get_value(&self.headers_in.content_type)
        } else if bytes_eq(&norm, &name_content_length_vec()) {
            get_value(&self.headers_in.content_length)
        } else if bytes_eq(&norm, &name_accept_vec()) {
            get_value(&self.headers_in.accept)
        } else {
            let found = self.headers_in.headers.lookup(header);
            match found {
                None => None,
                Some(v) => if v.len() == 0 {
                    None
                } else {
                    Some(v)
                },
            }
        }
    }

    /// Copies `name` and `value` into the arena, builds views over the
    /// copies, and appends them to the outbound header list with the
    /// presence sentinel set.  Always appends; an existing entry of the
    /// same name is never updated.  Reports false when the arena lacks
    /// room, leaving the outbound list untouched.
    pub fn set_header(&mut self, name: &Vec<u8>, value: &Vec<u8>) -> (r: bool)
        requires
            old(self).pool.wf(),
            old(self).headers_out.headers.wf(),
        ensures
            final(self).pool.wf(),
            final(self).headers_out.headers.wf(),
            *final(self) == (Request {
                pool: final(self).pool,
                headers_out: (HeadersOut {
                    headers: final(self).headers_out.headers,
                    ..old(self).headers_out
                }),
                ..*old(self)
            }),
            ({
                let room = old(self).pool.remaining();
                if name@.len() > room {
                    &&& r == false
                    &&& *final(self) == *old(self)
                } else if name@.len() + value@.len() > room {
                    &&& r == false
                    &&& Pool::allocate_ok(
                        old(self).pool,
                        final(self).pool,
                        name@,
                        old(self).pool.arena().len() as int,
                    )
                    &&& final(self).headers_out.headers == old(self).headers_out.headers
                } else {
                    &&& r == true
                    &&& final(self).pool.arena() == old(self).pool.arena().push(name@).push(
                        value@,
                    )
                    &&& final(self).pool.used == old(self).pool.used + name@.len() + value@.len()
                    &&& final(self).pool.capacity == old(self).pool.capacity
                    &&& final(self).headers_out.headers@ == old(self).headers_out.headers@.push(
                        (name@, value@),
                    )
                    &&& final(self).headers_out.headers.parts@.last().entries@.last().hash == 1
                }
            }),
    {
        let n_copy = copy_bytes(name);
        let h_name = match self.pool.allocate(n_copy) {
            None => {
                return false;
            },
            Some(h) => h,
        };
        let v_copy = copy_bytes(value);
        let h_value = match self.pool.allocate(v_copy) {
            None => {
                return false;
            },
            Some(h) => h,
        };
        let n_view = StringView::from_allocation(&self.pool, h_name);
        let v_view = StringView::from_allocation(&self.pool, h_value);
        let entry = HeaderEntry { hash: 1, name: n_view.bytes, value: v_view.bytes };
        self.headers_out.headers.push_entry(entry);
        true
    }

    /// Writes the outbound status field.  An already-sent response keeps
    /// the status it was committed with.
    pub fn set_status(&mut self, status: u64)
        ensures
            *final(self) == (Request {
                headers_out: (HeadersOut { status, ..old(self).headers_out }),
                ..*old(self)
            }),
    {
        self.headers_out.status = status;
    }

    /// Writes the outbound content-length field.
    pub fn set_content_length_n(&mut self, n: usize)
        ensures
            *final(self) == (Request {
                headers_out: (HeadersOut { content_length_n: n, ..old(self).headers_out }),
                ..*old(self)
            }),
    {
        self.headers_out.content_length_n = n;
    }

    /// Instructs the host to emit the response header block, committing
    /// the current outbound status, and hands the host's reported outcome
    /// back.  Call it only after every outbound header is set: setter
    /// calls after emission do not reach the sent response.
    pub fn send_header(&mut self) -> (r: Status)
        ensures
            *final(self) == (Request {
                sent_status: if old(self).sent_status is None {
                    Some(old(self).headers_out.status)
                } else {
                    old(self).sent_status
                },
                ..*old(self)
            }),
            r.0 == old(self).host.send_header,
    {
        if self.sent_status.is_none() {
            self.sent_status = Some(self.headers_out.status);
        }
        Status(self.host.send_header)
    }

    /// Whether the host expects no body to be written, as for a HEAD
    /// request.
    pub fn header_only(&self) -> (r: bool)
        ensures
            r == self.header_only,
    {
        self.header_only
    }

    /// Pushes one outbound body buffer to the host's output pipeline and
    /// hands the host's reported outcome back.  May be called once per
    /// chunk; the caller marks the final buffer.
    pub fn output_filter(&mut self, body: Buffer) -> (r: Status)
        ensures
            *final(self) == (Request { output: final(self).output, ..*old(self) }),
            final(self).output@ == old(self).output@.push(body),
            r.0 == old(self).host.output_filter,
    {
        self.output.push(body);
        Status(self.host.output_filter)
    }

    /// The normalized request path.
    pub fn uri(&self) -> (r: &StringView)
        ensures
            r@ == self.uri@,
    {
        &self.uri
    }

    /// The query string.
    pub fn args(&self) -> (r: &StringView)
        ensures
            r@ == self.args@,
    {
        &self.args
    }

    /// The connection's pre-rendered peer address text.
    pub fn addr(&self) -> (r: &StringView)
        ensures
            r@ == self.connection.addr_text@,
    {
        &self.connection.addr_text
    }
}

fn name_host_vec() -> (r: Vec<u8>)
    ensures
        r@ == name_host(),
{
    let r: Vec<u8> = vec![104u8, 111u8, 115u8, 116u8];
    proof {
        assert(r@ =~= name_host());
    }
    r
}

fn name_user_agent_vec() -> (r: Vec<u8>)
    ensures
        r@ == name_user_agent(),
{
    let r: Vec<u8> = vec![117u8, 115u8, 101u8, 114u8, 45u8, 97u8, 103u8, 101u8, 110u8, 116u8];
    proof {
        assert(r@ =~= name_user_agent());
    }
    r
}

fn name_referer_vec() -> (r: Vec<u8>)
    ensures
        r@ == name_referer(),
{
    let r: Vec<u8> = vec![114u8, 101u8, 102u8, 101u8, 114u8, 101u8, 114u8];
    proof {
        assert(r@ =~= name_referer());
    }
    r
}

fn name_accept_language_vec() -> (r: Vec<u8>)
    ensures
        r@ == name_accept_language(),
{
    let r: Vec<u8> = vec![
        97u8,
        99u8,
        99u8,
        101u8,
        112u8,
        116u8,
        45u8,
        108u8,
        97u8,
        110u8,
        103u8,
        117u8,
        97u8,
        103u8,
        101u8,
    ];
    proof {
        assert(r@ =~= name_accept_language());
    }
    r
}

fn name_content_type_vec() -> (r: Vec<u8>)
    ensures
        r@ == name_content_type(),
{
    let r: Vec<u8> = vec![99u8, 111u8, 110u8, 116u8, 101u8, 110u8, 116u8, 45u8, 116u8, 121u8, 112u8, 101u8];
    proof {
        assert(r@ =~= name_content_type());
    }
    r
}

fn name_content_length_vec() -> (r: Vec<u8>)
    ensures
        r@ == name_content_length(),
{
    let r: Vec<u8> = vec![
        99u8,
        111u8,
        110u8,
        116u8,
        101u8,
        110u8,
        116u8,
        45u8,
        108u8,
        101u8,
        110u8,
        103u8,
        116u8,
        104u8,
    ];
    proof {
        assert(r@ =~= name_content_length());
    }
    r
}

fn name_accept_vec() -> (r: Vec<u8>)
    ensures
        r@ == name_accept(),
{
    let r: Vec<u8> = vec![97u8, 99u8, 99u8, 101u8, 112u8, 116u8];
    proof {
        assert(r@ =~= name_accept());
    }
    r
}

/// Law: header lookup is case-insensitive — two names with the same ASCII
/// case folding always yield the same result.
pub proof fn lemma_get_header_case_insensitive(hin: HeadersIn, a: Seq<u8>, b: Seq<u8>)
    requires
        fold_seq(a) == fold_seq(b),
    ensures
        get_header_spec(hin, a) == get_header_spec(hin, b),
{
}

/// Law: a name mapped to a dedicated fast-path field yields the same
/// result under its canonical and its underscored alias — any two names
/// that fold and normalize to the same dedicated name agree.
pub proof fn lemma_get_header_alias(hin: HeadersIn, a: Seq<u8>, b: Seq<u8>)
    requires
        normalize(fold_seq(a)) == normalize(fold_seq(b)),
        is_dedicated(normalize(fold_seq(a))),
    ensures
        get_header_spec(hin, a) == get_header_spec(hin, b),
{
}

} // verus!
