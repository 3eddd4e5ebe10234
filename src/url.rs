use vstd::prelude::*;

verus! {

/// Splits `s` on every occurrence of `sep`, keeping empty pieces, as `str::split` does.
pub open spec fn split(s: Seq<char>, sep: char) -> Seq<Seq<char>>
    decreases s.len(),
{
    if s.len() == 0 {
        seq![Seq::empty()]
    } else {
        let prev = split(s.drop_last(), sep);
        if s.last() == sep {
            prev.push(Seq::empty())
        } else {
            prev.update(prev.len() - 1, prev.last().push(s.last()))
        }
    }
}

/// A split always has at least one piece.
proof fn lemma_split_nonempty(s: Seq<char>, sep: char)
    ensures
        split(s, sep).len() >= 1,
    decreases s.len(),
{
    if s.len() > 0 {
        lemma_split_nonempty(s.drop_last(), sep);
    }
}

/// A substring of a request's URL, as a character offset and a character count.
#[derive(Clone, Copy, Debug, PartialEq, Eq, Structural)]
pub struct StrRef {
    pub start: usize,
    pub len: usize,
}

impl StrRef {
    /// The range fits inside a text of `n` characters.
    pub open spec fn within(self, n: int) -> bool {
        self.start + self.len <= n
    }

    /// The characters of `url` that the range covers.
    pub open spec fn text(self, url: Seq<char>) -> Seq<char> {
        url.subrange(self.start as int, self.start + self.len)
    }
}

/// `b` starts one separator after `a` ends.
pub open spec fn follows(a: StrRef, b: StrRef) -> bool {
    b.start == a.start + a.len + 1
}

/// The texts that a sequence of ranges covers in `url`.
pub open spec fn texts(url: Seq<char>, refs: Seq<StrRef>) -> Seq<Seq<char>> {
    refs.map_values(|r: StrRef| r.text(url))
}

/// The ranges are consecutive pieces of `url[from..to]`, one separator apart.
pub open spec fn tiles(refs: Seq<StrRef>, from: int, to: int) -> bool {
    &&& refs.len() >= 1
    &&& refs[0].start == from
    &&& refs.last().start + refs.last().len == to
    &&& forall|j: int, k: int| 0 <= j && k == j + 1 && k < refs.len() ==> #[trigger] follows(refs[j], refs[k])
}

/// Splits `url[from..to]` on `sep` into character ranges of `url`.
fn split_ranges(url: &str, from: usize, to: usize, sep: char) -> (r: Vec<StrRef>)
    requires
        from <= to <= url@.len(),
    ensures
        texts(url@, r@) == split(url@.subrange(from as int, to as int), sep),
        tiles(r@, from as int, to as int),
        forall|k: int| 0 <= k < r@.len() ==> (#[trigger] r@[k]).within(to as int),
{
    let mut done: Vec<StrRef> = Vec::new();
    let mut start: usize = from;
    let mut i: usize = from;
    assert(url@.subrange(from as int, i as int) =~= Seq::<char>::empty());
    assert(split(Seq::<char>::empty(), sep) == seq![Seq::<char>::empty()]);
    assert(texts(url@, done@).push(url@.subrange(start as int, i as int)) =~= split(
        url@.subrange(from as int, i as int),
        sep,
    ));
    while i < to
        invariant
            from <= start <= i <= to <= url@.len(),
            texts(url@, done@).push(url@.subrange(start as int, i as int)) == split(
                url@.subrange(from as int, i as int),
                sep,
            ),
            done@.len() == 0 ==> start == from,
            done@.len() > 0 ==> done@[0].start == from && start == done@.last().start
                + done@.last().len + 1,
            forall|j: int, k: int|
                0 <= j && k == j + 1 && k < done@.len() ==> #[trigger] follows(done@[j], done@[k]),
            forall|k: int| 0 <= k < done@.len() ==> (#[trigger] done@[k]).within(start as int),
        decreases to - i,
    {
        let c = url.get_char(i);
        let ghost s = url@.subrange(from as int, i + 1);
        assert(s.drop_last() =~= url@.subrange(from as int, i as int));
        assert(s.last() == c);
        if c == sep {
            let ghost before = done@;
            done.push(StrRef { start, len: i - start });
            proof {
                assert(texts(url@, done@) =~= texts(url@, before).push(
                    url@.subrange(start as int, i as int),
                ));
            }
            start = i + 1;
            assert(url@.subrange(start as int, i + 1) =~= Seq::<char>::empty());
        } else {
            assert(url@.subrange(start as int, i as int).push(c) =~= url@.subrange(
                start as int,
                i + 1,
            ));
            assert(texts(url@, done@).push(url@.subrange(start as int, i + 1)) =~= texts(
                url@,
                done@,
            ).push(url@.subrange(start as int, i as int)).update(
                done@.len() as int,
                url@.subrange(start as int, i + 1),
            ));
        }
        i = i + 1;
    }
    let ghost before = done@;
    done.push(StrRef { start, len: to - start });
    assert(texts(url@, done@) =~= texts(url@, before).push(url@.subrange(start as int, to as int)));
    done
}

/// The name and value text of one query parameter.
pub type ParamText = (Option<Seq<char>>, Option<Seq<char>>);

/// A query token read at its first `=`: before it the name (absent when empty), after it the
/// value, further `=` included. A token without `=` is a name alone.
pub open spec fn param_of(t: Seq<char>) -> ParamText {
    let pieces = split(t, '=');
    if pieces.len() <= 1 {
        (Some(t), None)
    } else if pieces[0].len() == 0 {
        (None, Some(t.subrange(1, t.len() as int)))
    } else {
        (Some(pieces[0]), Some(t.subrange(pieces[0].len() as int + 1, t.len() as int)))
    }
}

/// The text after the last `/` of a URL.
pub open spec fn last_segment(u: Seq<char>) -> Seq<char> {
    split(u, '/').last()
}

/// The last segment cut at each `?`: the path's end, then one raw token per parameter.
pub open spec fn query_pieces(u: Seq<char>) -> Seq<Seq<char>> {
    split(last_segment(u), '?')
}

/// The URL up to the first `?` of its last segment.
pub open spec fn url_path(u: Seq<char>) -> Seq<char> {
    if u.len() == 0 {
        Seq::empty()
    } else {
        u.subrange(0, u.len() - last_segment(u).len() + query_pieces(u)[0].len() as int)
    }
}

/// The whole URL split on `/`.
pub open spec fn url_segments(u: Seq<char>) -> Seq<Seq<char>> {
    if u.len() == 0 {
        Seq::empty()
    } else {
        split(u, '/')
    }
}

/// One parameter for each token after a `?` of the last segment.
pub open spec fn url_params(u: Seq<char>) -> Seq<ParamText> {
    if u.len() == 0 {
        Seq::empty()
    } else {
        query_pieces(u).drop_first().map_values(|t: Seq<char>| param_of(t))
    }
}

/// What a `UrlInfo` shows: its URL and, once parsed, the parts derived from it.
pub struct UrlView {
    pub url: Seq<char>,
    pub parsed: bool,
    pub path: Seq<char>,
    pub segments: Seq<Seq<char>>,
    pub params: Seq<ParamText>,
}

/// The state before any parse: nothing derived yet.
pub open spec fn unparsed(u: Seq<char>) -> UrlView {
    UrlView { url: u, parsed: false, path: Seq::empty(), segments: Seq::empty(), params: Seq::empty() }
}

/// The state after a parse of `u`; an empty URL leaves nothing to parse.
pub open spec fn parse_of(u: Seq<char>) -> UrlView {
    if u.len() == 0 {
        unparsed(u)
    } else {
        UrlView {
            url: u,
            parsed: true,
            path: url_path(u),
            segments: url_segments(u),
            params: url_params(u),
        }
    }
}

pub open spec fn opt_text(url: Seq<char>, r: Option<StrRef>) -> Option<Seq<char>> {
    match r {
        Some(r) => Some(r.text(url)),
        None => None,
    }
}

pub open spec fn opt_within(r: Option<StrRef>, n: int) -> bool {
    match r {
        Some(r) => r.within(n),
        None => true,
    }
}

/// One query parameter, as ranges of the request's URL.
#[derive(Clone, Copy, Debug)]
pub struct Param {
    pub name: Option<StrRef>,
    pub value: Option<StrRef>,
}

impl Param {
    pub open spec fn text(self, url: Seq<char>) -> ParamText {
        (opt_text(url, self.name), opt_text(url, self.value))
    }

    pub open spec fn within(self, n: int) -> bool {
        opt_within(self.name, n) && opt_within(self.value, n)
    }
}

pub open spec fn param_texts(url: Seq<char>, ps: Seq<Param>) -> Seq<ParamText> {
    ps.map_values(|p: Param| p.text(url))
}

/// Reads one query token, the range `tok` of `url`.
fn parse_param(url: &str, tok: StrRef) -> (p: Param)
    requires
        tok.within(url@.len() as int),
        url@.len() <= usize::MAX,
    ensures
        p.text(url@) == param_of(tok.text(url@)),
        p.within(url@.len() as int),
{
    let end = tok.start + tok.len;
    let pieces = split_ranges(url, tok.start, end, '=');
    let ghost t = tok.text(url@);
    assert(pieces@[0].text(url@) == split(t, '=')[0]);
    if pieces.len() == 1 {
        Param { name: Some(tok), value: None }
    } else {
        let first = pieces[0];
        assert(follows(pieces@[0], pieces@[1]));
        let value = StrRef { start: first.start + first.len + 1, len: end - (first.start + first.len + 1) };
        assert(value.text(url@) =~= t.subrange(first.len + 1, t.len() as int));
        if first.len == 0 {
            Param { name: None, value: Some(value) }
        } else {
            Param { name: Some(first), value: Some(value) }
        }
    }
}

/// The parts of a parsed URL, as ranges of it.
#[derive(Debug)]
struct ParsedUrl {
    path: StrRef,
    parts: Vec<StrRef>,
    params: Vec<Param>,
}

/// A request's URL and, once parsed, its path, segments and query parameters as ranges of it.
#[derive(Debug)]
pub struct UrlInfo {
    /// The URL as the server received it, e.g. `/admin/new?q=something`.
    original_url: String,
    /// `None` until the URL is parsed.
    parsed: Option<ParsedUrl>,
}

impl View for UrlInfo {
    type V = UrlView;

    closed spec fn view(&self) -> UrlView {
        let url = self.original_url@;
        match self.parsed {
            None => unparsed(url),
            Some(p) => UrlView {
                url,
                parsed: true,
                path: p.path.text(url),
                segments: texts(url, p.parts@),
                params: param_texts(url, p.params@),
            },
        }
    }
}

impl UrlInfo {
    #[verifier::type_invariant]
    closed spec fn well_formed(self) -> bool {
        let n = self.original_url@.len() as int;
        match self.parsed {
            None => self.original_url@.len() <= usize::MAX,
            Some(p) => {
                &&& self.original_url@.len() <= usize::MAX
                &&& self@ == parse_of(self.original_url@)
                &&& p.path.within(n)
                &&& forall|k: int| 0 <= k < p.parts@.len() ==> (#[trigger] p.parts@[k]).within(n)
                &&& forall|k: int| 0 <= k < p.params@.len() ==> (#[trigger] p.params@[k]).within(n)
            },
        }
    }

    pub fn new(url: String) -> (r: UrlInfo)
        ensures
            r@ == unparsed(url@),
    {
        // Counting the characters shows that every offset into the URL fits in a `usize`.
        let _n = url.as_str().unicode_len();
        UrlInfo { original_url: url, parsed: None }
    }

    pub fn is_lazy_parsed(&self) -> (r: bool)
        ensures
            r == self@.parsed,
            r ==> self@ == parse_of(self@.url),
    {
        proof { use_type_invariant(self); }
        self.parsed.is_some()
    }

    /// Parses the URL unless that was done before; calling it again changes nothing.
    pub fn parse_if_needed(&mut self)
        ensures
            final(self)@ == parse_of(old(self)@.url),
    {
        proof { use_type_invariant(&*self); }
        if !self.is_lazy_parsed() {
            self.lazy_parse();
        }
    }

    /// Parses the URL into its path, segments and parameters.
    pub fn lazy_parse(&mut self)
        ensures
            final(self)@ == parse_of(old(self)@.url),
    {
        proof { use_type_invariant(&*self); }
        let n = self.original_url.as_str().unicode_len();
        if n == 0 {
            assert(self.original_url@.len() == 0);
            return;
        }
        let url = self.original_url.as_str();
        let ghost u = url@;
        let parts = split_ranges(url, 0, n, '/');
        assert(u.subrange(0, n as int) =~= u);
        let last = parts[parts.len() - 1];
        assert(last.text(u) == texts(u, parts@).last());
        assert(last.text(u) =~= u.subrange(last.start as int, n as int));
        let qs = split_ranges(url, last.start, n, '?');
        proof { lemma_split_nonempty(last_segment(u), '?'); }
        let path = StrRef { start: 0, len: last.start + qs[0].len };
        assert(qs@[0].text(u) == query_pieces(u)[0]);
        let mut params: Vec<Param> = Vec::new();
        let mut k: usize = 1;
        while k < qs.len()
            invariant
                1 <= k <= qs@.len(),
                texts(u, qs@) == query_pieces(u),
                u == url@,
                n == u.len(),
                forall|j: int| 0 <= j < qs@.len() ==> (#[trigger] qs@[j]).within(n as int),
                params@.len() == k - 1,
                forall|j: int| 0 <= j < params@.len() ==> (#[trigger] params@[j]).within(n as int),
                forall|j: int|
                    0 <= j < params@.len() ==> (#[trigger] params@[j]).text(u) == param_of(
                        query_pieces(u)[j + 1],
                    ),
            decreases qs@.len() - k,
        {
            let p = parse_param(url, qs[k]);
            assert(qs@[k as int].text(u) == query_pieces(u)[k as int]);
            params.push(p);
            k = k + 1;
        }
        assert(param_texts(u, params@) =~= url_params(u));
        assert(path.text(u) =~= url_path(u));
        self.parsed = Some(ParsedUrl { path, parts, params });
    }
}

/// A copy of `v`, element by element.
fn copied<T: Copy>(v: &Vec<T>) -> (r: Vec<T>)
    ensures
        r@ == v@,
{
    let mut r: Vec<T> = Vec::new();
    let mut i: usize = 0;
    while i < v.len()
        invariant
            i <= v@.len(),
            r@ == v@.subrange(0, i as int),
        decreases v@.len() - i,
    {
        r.push(v[i]);
        i = i + 1;
        assert(r@ =~= v@.subrange(0, i as int));
    }
    assert(v@.subrange(0, v@.len() as int) =~= v@);
    r
}

/// One request's URL, with the path, segments and parameters derived from it on first use.
#[derive(Debug)]
pub struct RequestContext {
    url_info: UrlInfo,
}

impl View for RequestContext {
    type V = UrlView;

    closed spec fn view(&self) -> UrlView {
        self.url_info@
    }
}

impl RequestContext {
    pub fn new(url: String) -> (r: RequestContext)
        ensures
            r@ == unparsed(url@),
    {
        RequestContext { url_info: UrlInfo::new(url) }
    }

    pub fn original_url(&self) -> (r: &str)
        ensures
            r@ == self@.url,
    {
        self.url_info.original_url.as_str()
    }

    /// The characters of the URL that `r` covers.
    pub fn text(&self, r: StrRef) -> (t: &str)
        requires
            r.within(self@.url.len() as int),
        ensures
            t@ == r.text(self@.url),
    {
        proof { use_type_invariant(&self.url_info); }
        self.url_info.original_url.as_str().substring_char(r.start, r.start + r.len)
    }

    /// The path: the URL up to the first `?` of its last segment; empty for an empty URL.
    pub fn path(&mut self) -> (r: StrRef)
        ensures
            final(self)@ == parse_of(old(self)@.url),
            r.within(final(self)@.url.len() as int),
            r.text(final(self)@.url) == final(self)@.path,
    {
        self.url_info.parse_if_needed();
        proof { use_type_invariant(&self.url_info); }
        match &self.url_info.parsed {
            Some(p) => p.path,
            None => {
                assert(StrRef { start: 0, len: 0 }.text(self@.url) =~= Seq::<char>::empty());
                StrRef { start: 0, len: 0 }
            },
        }
    }

    /// The URL split on `/`; empty for an empty URL.
    pub fn parts(&mut self) -> (r: Vec<StrRef>)
        ensures
            final(self)@ == parse_of(old(self)@.url),
            forall|k: int| 0 <= k < r@.len() ==> (#[trigger] r@[k]).within(final(self)@.url.len() as int),
            texts(final(self)@.url, r@) == final(self)@.segments,
    {
        self.url_info.parse_if_needed();
        proof { use_type_invariant(&self.url_info); }
        match &self.url_info.parsed {
            Some(p) => copied(&p.parts),
            None => {
                let r: Vec<StrRef> = Vec::new();
                assert(texts(self@.url, r@) =~= Seq::empty());
                r
            },
        }
    }

    /// The query parameters of the last segment; empty for an empty URL.
    pub fn params(&mut self) -> (r: Vec<Param>)
        ensures
            final(self)@ == parse_of(old(self)@.url),
            forall|k: int| 0 <= k < r@.len() ==> (#[trigger] r@[k]).within(final(self)@.url.len() as int),
            param_texts(final(self)@.url, r@) == final(self)@.params,
    {
        self.url_info.parse_if_needed();
        proof { use_type_invariant(&self.url_info); }
        match &self.url_info.parsed {
            Some(p) => copied(&p.params),
            None => {
                let r: Vec<Param> = Vec::new();
                assert(param_texts(self@.url, r@) =~= Seq::empty());
                r
            },
        }
    }
}

/// Parsing is idempotent: parsing the URL of a parsed state gives that state back.
pub proof fn lemma_parse_idempotent(u: Seq<char>)
    ensures
        parse_of(parse_of(u).url) == parse_of(u),
{
}

} // verus!
