//! Catalogue entries and their classification.
//!
//! A [`Stream`] is one entry of the engine's self-describing parameter
//! catalogue: a stream kind, a parameter name, the fixed resolution policy
//! (return as `Text`, search by `Name`) and a classification tag.  The
//! [`BuiltInRegistry`] holds the parameter names the user has designated as
//! built-in; it is built once from configuration and read-only afterwards.

use vstd::prelude::*;
use vstd::string::StringExecFns;

use crate::media_info::{
    parse_stream_kind, stream_kind_name, MediaInfoPropertyKind, MediaInfoStreamKind,
};
use crate::text::{seq_views, split_lines, split_lines_spec, str_eq, trim_spec, trim_str};

verus! {

/// Whether a catalogue entry is one of the user's curated built-in
/// parameters (`Internal`) or was only discovered in the engine's
/// catalogue (`External`).
#[derive(Clone, Copy, Debug, PartialEq, Eq, Structural)]
pub enum StreamType {
    External,
    Internal,
}

impl StreamType {
    pub fn is_external(&self) -> (r: bool)
        ensures
            r == (*self == StreamType::External),
    {
        match self {
            StreamType::External => true,
            StreamType::Internal => false,
        }
    }

    pub fn is_internal(&self) -> (r: bool)
        ensures
            r == (*self == StreamType::Internal),
    {
        match self {
            StreamType::External => false,
            StreamType::Internal => true,
        }
    }
}

/// One entry of the parameter catalogue, with its fixed resolution policy.
#[derive(Debug)]
pub struct Stream {
    pub info_kind: MediaInfoPropertyKind,
    pub parameter: String,
    pub search_kind: MediaInfoPropertyKind,
    pub stream_kind: MediaInfoStreamKind,
    pub stream_type: StreamType,
}

/// The identifier key of an entry: the stream-kind name and the parameter
/// name, joined by a slash, as in `General/Duration`.
pub open spec fn identifier_spec(kind: MediaInfoStreamKind, parameter: Seq<char>) -> Seq<char> {
    stream_kind_name(kind) + seq!['/'] + parameter
}

/// The tag `classify` assigns: built-in parameters are registered for the
/// general stream kind only, so an entry is `Internal` exactly when its
/// kind is `General` and its parameter name is registered.
pub open spec fn classify_spec(
    builtins: Seq<Seq<char>>,
    kind: MediaInfoStreamKind,
    parameter: Seq<char>,
) -> StreamType {
    if kind == MediaInfoStreamKind::General && builtins.contains(parameter) {
        StreamType::Internal
    } else {
        StreamType::External
    }
}

/// The (kind, parameter-name) pairs of a sequence of catalogue entries.
pub open spec fn stream_entries(ss: Seq<Stream>) -> Seq<(MediaInfoStreamKind, Seq<char>)> {
    ss.map_values(|s: Stream| (s.stream_kind, s.parameter@))
}

/// The catalogue state machine, run over the remaining lines.  In the
/// expect-kind state a blank or unrecognized line aborts parsing; a kind
/// line opens a block.  Inside a block a blank line closes it and a
/// non-blank line records one parameter, trimmed.
pub open spec fn parse_rest(
    lines: Seq<Seq<char>>,
    expect_kind: bool,
    kind: MediaInfoStreamKind,
) -> Seq<(MediaInfoStreamKind, Seq<char>)>
    decreases lines.len(),
{
    if lines.len() == 0 {
        Seq::empty()
    } else {
        let t = trim_spec(lines[0]);
        if expect_kind {
            if t.len() == 0 {
                Seq::empty()
            } else {
                let k = parse_stream_kind(t);
                if k == MediaInfoStreamKind::Max {
                    Seq::empty()
                } else {
                    parse_rest(lines.drop_first(), false, k)
                }
            }
        } else {
            if t.len() == 0 {
                parse_rest(lines.drop_first(), true, kind)
            } else {
                seq![(kind, t)] + parse_rest(lines.drop_first(), false, kind)
            }
        }
    }
}

/// What parsing a catalogue text yields: the (kind, parameter) pairs in
/// encounter order, with no deduplication and no sorting.
pub open spec fn parse_catalogue(s: Seq<char>) -> Seq<(MediaInfoStreamKind, Seq<char>)> {
    parse_rest(split_lines_spec(s), true, MediaInfoStreamKind::General)
}

/// Whether a line is free of newline characters.
pub open spec fn line_ok(s: Seq<char>) -> bool {
    forall|j: int| 0 <= j < s.len() ==> s[j] != '\n'
}

/// The text of a sequence of lines, each line followed by a newline.
pub open spec fn render_lines(lines: Seq<Seq<char>>) -> Seq<char>
    decreases lines.len(),
{
    if lines.len() == 0 {
        Seq::empty()
    } else {
        lines[0] + seq!['\n'] + render_lines(lines.drop_first())
    }
}

/// The lines of one catalogue block: the kind's name, the parameter
/// names, and the closing blank line.
pub open spec fn block_lines(kind: MediaInfoStreamKind, params: Seq<Seq<char>>) -> Seq<Seq<char>> {
    seq![stream_kind_name(kind)] + params + seq![Seq::<char>::empty()]
}

/// The lines of a whole catalogue, block after block.
pub open spec fn catalogue_lines(blocks: Seq<(MediaInfoStreamKind, Seq<Seq<char>>)>) -> Seq<
    Seq<char>,
>
    decreases blocks.len(),
{
    if blocks.len() == 0 {
        Seq::empty()
    } else {
        block_lines(blocks[0].0, blocks[0].1) + catalogue_lines(blocks.drop_first())
    }
}

/// The text of a catalogue with the given blocks.
pub open spec fn render_catalogue(blocks: Seq<(MediaInfoStreamKind, Seq<Seq<char>>)>) -> Seq<
    char,
> {
    render_lines(catalogue_lines(blocks))
}

/// Every parameter of a block paired with the block's kind.
pub open spec fn pair_with_kind(kind: MediaInfoStreamKind, params: Seq<Seq<char>>) -> Seq<
    (MediaInfoStreamKind, Seq<char>),
> {
    params.map_values(|p: Seq<char>| (kind, p))
}

/// The (kind, parameter) pairs of the blocks, flattened in block order.
pub open spec fn flatten_blocks(blocks: Seq<(MediaInfoStreamKind, Seq<Seq<char>>)>) -> Seq<
    (MediaInfoStreamKind, Seq<char>),
>
    decreases blocks.len(),
{
    if blocks.len() == 0 {
        Seq::empty()
    } else {
        pair_with_kind(blocks[0].0, blocks[0].1) + flatten_blocks(blocks.drop_first())
    }
}

/// A parameter name the catalogue format can carry on a line of its own:
/// non-blank, already trimmed, and single-line.
pub open spec fn wf_param(p: Seq<char>) -> bool {
    &&& p.len() > 0
    &&& trim_spec(p) == p
    &&& line_ok(p)
}

/// A block the catalogue format can carry: a real (recognized) stream
/// kind and well-formed parameter names.
pub open spec fn wf_block(kind: MediaInfoStreamKind, params: Seq<Seq<char>>) -> bool {
    &&& kind != MediaInfoStreamKind::Max
    &&& forall|i: int| 0 <= i < params.len() ==> wf_param(#[trigger] params[i])
}

pub open spec fn wf_blocks(blocks: Seq<(MediaInfoStreamKind, Seq<Seq<char>>)>) -> bool {
    forall|i: int| 0 <= i < blocks.len() ==> wf_block(
        (#[trigger] blocks[i]).0,
        blocks[i].1,
    )
}

/// The name of every real stream kind is non-blank, single-line, already
/// trimmed, and parses back to that kind.
pub proof fn lemma_stream_kind_name_facts(kind: MediaInfoStreamKind)
    requires
        kind != MediaInfoStreamKind::Max,
    ensures
        stream_kind_name(kind).len() > 0,
        line_ok(stream_kind_name(kind)),
        trim_spec(stream_kind_name(kind)) == stream_kind_name(kind),
        parse_stream_kind(stream_kind_name(kind)) == kind,
{
    reveal_strlit("General");
    reveal_strlit("Video");
    reveal_strlit("Audio");
    reveal_strlit("Text");
    reveal_strlit("Other");
    reveal_strlit("Image");
    reveal_strlit("Menu");
    let name = stream_kind_name(kind);
    crate::text::lemma_trim_id(name);
}

/// In the expect-kind state the current-kind argument is immaterial.
pub proof fn lemma_parse_kind_irrelevant(
    lines: Seq<Seq<char>>,
    k1: MediaInfoStreamKind,
    k2: MediaInfoStreamKind,
)
    ensures
        parse_rest(lines, true, k1) == parse_rest(lines, true, k2),
{
}

/// Inside a block, well-formed parameter lines are recorded one pair each.
pub proof fn lemma_parse_params(
    params: Seq<Seq<char>>,
    rest: Seq<Seq<char>>,
    kind: MediaInfoStreamKind,
)
    requires
        forall|i: int| 0 <= i < params.len() ==> wf_param(#[trigger] params[i]),
    ensures
        parse_rest(params + rest, false, kind) == pair_with_kind(kind, params) + parse_rest(
            rest,
            false,
            kind,
        ),
    decreases params.len(),
{
    if params.len() == 0 {
        assert(params + rest =~= rest);
        assert(pair_with_kind(kind, params) =~~= Seq::<(MediaInfoStreamKind, Seq<char>)>::empty());
        assert(pair_with_kind(kind, params) + parse_rest(rest, false, kind) =~= parse_rest(
            rest,
            false,
            kind,
        ));
    } else {
        let p = params[0];
        assert(wf_param(p));
        assert((params + rest)[0] == p);
        assert((params + rest).drop_first() =~= params.drop_first() + rest);
        lemma_parse_params(params.drop_first(), rest, kind);
        assert(pair_with_kind(kind, params) =~= seq![(kind, p)] + pair_with_kind(
            kind,
            params.drop_first(),
        ));
        assert(seq![(kind, p)] + (pair_with_kind(kind, params.drop_first()) + parse_rest(
            rest,
            false,
            kind,
        )) =~= pair_with_kind(kind, params) + parse_rest(rest, false, kind));
    }
}

/// A run of well-formed blocks is consumed block by block, leaving the
/// state machine back in the expect-kind state for whatever follows.
pub proof fn lemma_parse_blocks(
    blocks: Seq<(MediaInfoStreamKind, Seq<Seq<char>>)>,
    rest: Seq<Seq<char>>,
    kind: MediaInfoStreamKind,
)
    requires
        wf_blocks(blocks),
    ensures
        parse_rest(catalogue_lines(blocks) + rest, true, kind) == flatten_blocks(blocks)
            + parse_rest(rest, true, kind),
    decreases blocks.len(),
{
    if blocks.len() == 0 {
        assert(catalogue_lines(blocks) + rest =~= rest);
        assert(flatten_blocks(blocks) + parse_rest(rest, true, kind) =~= parse_rest(
            rest,
            true,
            kind,
        ));
    } else {
        let k0 = blocks[0].0;
        let params = blocks[0].1;
        assert(wf_block(k0, params));
        lemma_stream_kind_name_facts(k0);
        let lines = catalogue_lines(blocks) + rest;
        let tail2 = seq![Seq::<char>::empty()] + (catalogue_lines(blocks.drop_first()) + rest);
        assert(lines[0] == stream_kind_name(k0));
        assert(lines.drop_first() =~= params + tail2);
        assert(parse_rest(lines, true, kind) == parse_rest(params + tail2, false, k0));
        lemma_parse_params(params, tail2, k0);
        assert(trim_spec(Seq::<char>::empty()).len() == 0);
        assert(tail2[0] == Seq::<char>::empty());
        assert(tail2.drop_first() =~= catalogue_lines(blocks.drop_first()) + rest);
        assert(parse_rest(tail2, false, k0) == parse_rest(
            catalogue_lines(blocks.drop_first()) + rest,
            true,
            k0,
        ));
        assert(wf_blocks(blocks.drop_first())) by {
            assert(forall|i: int| 0 <= i < blocks.drop_first().len() ==> blocks.drop_first()[i]
                == blocks[i + 1]);
        }
        lemma_parse_blocks(blocks.drop_first(), rest, k0);
        lemma_parse_kind_irrelevant(rest, k0, kind);
        assert(pair_with_kind(k0, params) + (flatten_blocks(blocks.drop_first()) + parse_rest(
            rest,
            true,
            kind,
        )) =~= flatten_blocks(blocks) + parse_rest(rest, true, kind));
    }
}

/// Every line a catalogue renders is newline-free.
pub proof fn lemma_catalogue_lines_ok(blocks: Seq<(MediaInfoStreamKind, Seq<Seq<char>>)>)
    requires
        wf_blocks(blocks),
    ensures
        forall|i: int| 0 <= i < catalogue_lines(blocks).len() ==> line_ok(
            #[trigger] catalogue_lines(blocks)[i],
        ),
    decreases blocks.len(),
{
    if blocks.len() > 0 {
        let k0 = blocks[0].0;
        let params = blocks[0].1;
        let bl = block_lines(k0, params);
        assert(wf_block(k0, params));
        lemma_stream_kind_name_facts(k0);
        assert(wf_blocks(blocks.drop_first())) by {
            assert(forall|i: int| 0 <= i < blocks.drop_first().len() ==> blocks.drop_first()[i]
                == blocks[i + 1]);
        }
        lemma_catalogue_lines_ok(blocks.drop_first());
        assert forall|i: int| 0 <= i < catalogue_lines(blocks).len() implies line_ok(
            #[trigger] catalogue_lines(blocks)[i],
        ) by {
            if i < bl.len() {
                assert(catalogue_lines(blocks)[i] == bl[i]);
                if i == 0 {
                    assert(bl[i] == stream_kind_name(k0));
                } else if i <= params.len() {
                    assert(bl[i] == params[i - 1]);
                    assert(wf_param(params[i - 1]));
                } else {
                    assert(bl[i] == Seq::<char>::empty());
                }
            } else {
                assert(catalogue_lines(blocks)[i] == catalogue_lines(blocks.drop_first())[i
                    - bl.len()]);
            }
        }
    }
}

/// Rendering lines and splitting the result gives the lines back, plus
/// the empty piece after the final newline.
pub proof fn lemma_render_split(lines: Seq<Seq<char>>)
    requires
        forall|i: int| 0 <= i < lines.len() ==> line_ok(#[trigger] lines[i]),
    ensures
        split_lines_spec(render_lines(lines)) == lines + seq![Seq::<char>::empty()],
    decreases lines.len(),
{
    if lines.len() == 0 {
        assert(render_lines(lines) =~= Seq::<char>::empty());
        assert(split_lines_spec(Seq::<char>::empty()) == seq![Seq::<char>::empty()]);
        assert(lines + seq![Seq::<char>::empty()] =~= seq![Seq::<char>::empty()]);
    } else {
        assert(line_ok(lines[0]));
        lemma_render_split(lines.drop_first());
        crate::text::lemma_split_app(lines[0], render_lines(lines.drop_first()));
        assert(render_lines(lines) == lines[0] + seq!['\n'] + render_lines(lines.drop_first()));
        assert(seq![lines[0]] + (lines.drop_first() + seq![Seq::<char>::empty()]) =~= lines + seq![
            Seq::<char>::empty(),
        ]);
    }
}

/// Catalogue round-trip: rendering well-formed blocks and parsing the
/// rendered text yields exactly the blocks' (kind, parameter) pairs, in
/// order — no entry is added, dropped, or moved.
pub proof fn lemma_catalogue_round_trip(blocks: Seq<(MediaInfoStreamKind, Seq<Seq<char>>)>)
    requires
        wf_blocks(blocks),
    ensures
        parse_catalogue(render_catalogue(blocks)) == flatten_blocks(blocks),
{
    lemma_catalogue_lines_ok(blocks);
    lemma_render_split(catalogue_lines(blocks));
    lemma_parse_blocks(blocks, seq![Seq::<char>::empty()], MediaInfoStreamKind::General);
    assert(trim_spec(Seq::<char>::empty()).len() == 0);
    assert(parse_rest(seq![Seq::<char>::empty()], true, MediaInfoStreamKind::General) =~= Seq::<
        (MediaInfoStreamKind, Seq<char>),
    >::empty());
    assert(flatten_blocks(blocks) + Seq::<(MediaInfoStreamKind, Seq<char>)>::empty()
        =~= flatten_blocks(blocks));
}

/// Malformed-catalogue degradation: where a kind is expected, a blank line
/// or a line naming no recognized kind stops parsing.  Whatever follows
/// the malformed line, the result is exactly the pairs of the well-formed
/// blocks before it — never a pair from beyond the malformed point.
pub proof fn lemma_malformed_catalogue_degradation(
    blocks: Seq<(MediaInfoStreamKind, Seq<Seq<char>>)>,
    bad: Seq<char>,
    rest: Seq<Seq<char>>,
)
    requires
        wf_blocks(blocks),
        trim_spec(bad).len() == 0 || parse_stream_kind(trim_spec(bad)) == MediaInfoStreamKind::Max,
        line_ok(bad),
        forall|i: int| 0 <= i < rest.len() ==> line_ok(#[trigger] rest[i]),
    ensures
        parse_catalogue(render_lines(catalogue_lines(blocks) + seq![bad] + rest))
            == flatten_blocks(blocks),
{
    let all = catalogue_lines(blocks) + seq![bad] + rest;
    lemma_catalogue_lines_ok(blocks);
    assert forall|i: int| 0 <= i < all.len() implies line_ok(#[trigger] all[i]) by {
        if i < catalogue_lines(blocks).len() {
            assert(all[i] == catalogue_lines(blocks)[i]);
        } else if i == catalogue_lines(blocks).len() {
            assert(all[i] == bad);
        } else {
            assert(all[i] == rest[i - catalogue_lines(blocks).len() - 1]);
        }
    }
    lemma_render_split(all);
    let tail = seq![bad] + rest + seq![Seq::<char>::empty()];
    assert(split_lines_spec(render_lines(all)) =~= catalogue_lines(blocks) + tail);
    lemma_parse_blocks(blocks, tail, MediaInfoStreamKind::General);
    assert(tail[0] == bad);
    assert(parse_rest(tail, true, MediaInfoStreamKind::General) =~= Seq::<
        (MediaInfoStreamKind, Seq<char>),
    >::empty());
    assert(flatten_blocks(blocks) + Seq::<(MediaInfoStreamKind, Seq<char>)>::empty()
        =~= flatten_blocks(blocks));
}

/// Classification is idempotent: against the same registry contents, the
/// same (kind, parameter) query always yields the same tag.  Every call of
/// `BuiltInRegistry::classify` returns `classify_spec` of the registry's
/// view, so two calls without a rebuild in between agree.
pub proof fn lemma_classify_idempotent(
    builtins: Seq<Seq<char>>,
    kind: MediaInfoStreamKind,
    parameter: Seq<char>,
    first: StreamType,
    second: StreamType,
)
    requires
        first == classify_spec(builtins, kind, parameter),
        second == classify_spec(builtins, kind, parameter),
    ensures
        first == second,
{
}

/// The registry of built-in parameter names, populated once from the
/// user's configured general-stream parameter list and read-only from then
/// on.  Its view is the sequence of registered parameter names.
pub struct BuiltInRegistry {
    entries: Vec<Stream>,
}

impl View for BuiltInRegistry {
    type V = Seq<Seq<char>>;

    closed spec fn view(&self) -> Seq<Seq<char>> {
        self.entries@.map_values(|s: Stream| s.parameter@)
    }
}

impl BuiltInRegistry {
    /// The registry's entries all carry the fixed policy fields of a
    /// built-in general-stream entry.
    pub closed spec fn wf(&self) -> bool {
        forall|i: int| 0 <= i < self.entries@.len() ==> {
            &&& (#[trigger] self.entries@[i]).info_kind == MediaInfoPropertyKind::Text
            &&& self.entries@[i].search_kind == MediaInfoPropertyKind::Name
            &&& self.entries@[i].stream_kind == MediaInfoStreamKind::General
            &&& self.entries@[i].stream_type == StreamType::Internal
        }
    }

    /// Builds the registry from the configured built-in general-stream
    /// parameter names, keeping their order.
    pub fn new(general: &Vec<String>) -> (r: Self)
        ensures
            r@ == seq_views(general@),
            r.wf(),
    {
        let mut entries: Vec<Stream> = Vec::new();
        let mut i: usize = 0;
        while i < general.len()
            invariant
                i <= general@.len(),
                entries@.len() == i,
                forall|j: int| 0 <= j < i ==> {
                    &&& (#[trigger] entries@[j]).info_kind == MediaInfoPropertyKind::Text
                    &&& entries@[j].search_kind == MediaInfoPropertyKind::Name
                    &&& entries@[j].stream_kind == MediaInfoStreamKind::General
                    &&& entries@[j].stream_type == StreamType::Internal
                    &&& entries@[j].parameter@ == general@[j]@
                },
            decreases general@.len() - i,
        {
            let parameter = general[i].clone();
            entries.push(
                Stream {
                    info_kind: MediaInfoPropertyKind::Text,
                    parameter,
                    search_kind: MediaInfoPropertyKind::Name,
                    stream_kind: MediaInfoStreamKind::General,
                    stream_type: StreamType::Internal,
                },
            );
            i = i + 1;
        }
        let r = BuiltInRegistry { entries };
        proof {
            assert(r@ =~= seq_views(general@));
        }
        r
    }

    /// How many parameter names are registered.
    pub fn len(&self) -> (r: usize)
        ensures
            r == self@.len(),
    {
        self.entries.len()
    }

    /// Classifies one catalogue entry: `Internal` exactly when the pair
    /// (kind, parameter) is registered as built-in.  The result depends on
    /// the registry contents alone, so repeated calls agree until the
    /// registry is rebuilt.
    pub fn classify(
        &self,
        stream_kind: MediaInfoStreamKind,
        parameter: &str,
    ) -> (r: StreamType)
        ensures
            r == classify_spec(self@, stream_kind, parameter@),
    {
        if !(stream_kind == MediaInfoStreamKind::General) {
            return StreamType::External;
        }
        let n = self.entries.len();
        let mut i: usize = 0;
        while i < n
            invariant
                stream_kind == MediaInfoStreamKind::General,
                n == self.entries@.len(),
                i <= n,
                forall|j: int| 0 <= j < i ==> (#[trigger] self.entries@[j]).parameter@
                    != parameter@,
            decreases n - i,
        {
            if str_eq(self.entries[i].parameter.as_str(), parameter) {
                proof {
                    assert(self@[i as int] == parameter@);
                    assert(self@.contains(parameter@));
                }
                return StreamType::Internal;
            }
            i = i + 1;
        }
        proof {
            assert(forall|j: int| 0 <= j < self@.len() ==> #[trigger] self@[j] != parameter@);
        }
        StreamType::External
    }
}

impl Stream {
    /// A catalogue entry for the given kind and parameter, classified
    /// against the registry; resolution is fixed to search by `Name` and
    /// return as `Text`.
    pub fn new(
        registry: &BuiltInRegistry,
        stream_kind: MediaInfoStreamKind,
        parameter: String,
    ) -> (r: Stream)
        ensures
            r.info_kind == MediaInfoPropertyKind::Text,
            r.search_kind == MediaInfoPropertyKind::Name,
            r.stream_kind == stream_kind,
            r.parameter == parameter,
            r.stream_type == classify_spec(registry@, stream_kind, parameter@),
    {
        let stream_type = registry.classify(stream_kind, parameter.as_str());
        Stream {
            info_kind: MediaInfoPropertyKind::Text,
            parameter,
            search_kind: MediaInfoPropertyKind::Name,
            stream_kind,
            stream_type,
        }
    }

    /// A built-in entry, as the registry constructor records them.
    pub fn new_built_in(stream_kind: MediaInfoStreamKind, parameter: String) -> (r: Stream)
        ensures
            r.info_kind == MediaInfoPropertyKind::Text,
            r.search_kind == MediaInfoPropertyKind::Name,
            r.stream_kind == stream_kind,
            r.parameter == parameter,
            r.stream_type == StreamType::Internal,
    {
        Stream {
            info_kind: MediaInfoPropertyKind::Text,
            parameter,
            search_kind: MediaInfoPropertyKind::Name,
            stream_kind,
            stream_type: StreamType::Internal,
        }
    }

    /// The built-in entries of the registry, in registration order.  Only
    /// the general stream kind has built-in entries by design; asking for
    /// another kind is an invariant violation.
    pub fn get_built_in_streams(
        registry: &BuiltInRegistry,
        stream_kind: MediaInfoStreamKind,
    ) -> (r: Vec<Stream>)
        requires
            registry.wf(),
            stream_kind == MediaInfoStreamKind::General,
        ensures
            r@.len() == registry@.len(),
            forall|i: int| 0 <= i < r@.len() ==> {
                &&& (#[trigger] r@[i]).info_kind == MediaInfoPropertyKind::Text
                &&& r@[i].search_kind == MediaInfoPropertyKind::Name
                &&& r@[i].stream_kind == MediaInfoStreamKind::General
                &&& r@[i].stream_type == StreamType::Internal
                &&& r@[i].parameter@ == registry@[i]
            },
    {
        let n = registry.entries.len();
        let mut r: Vec<Stream> = Vec::new();
        let mut i: usize = 0;
        while i < n
            invariant
                registry.wf(),
                n == registry.entries@.len(),
                i <= n,
                r@.len() == i,
                forall|j: int| 0 <= j < i ==> {
                    &&& (#[trigger] r@[j]).info_kind == MediaInfoPropertyKind::Text
                    &&& r@[j].search_kind == MediaInfoPropertyKind::Name
                    &&& r@[j].stream_kind == MediaInfoStreamKind::General
                    &&& r@[j].stream_type == StreamType::Internal
                    &&& r@[j].parameter@ == registry@[j]
                },
            decreases n - i,
        {
            let entry = &registry.entries[i];
            r.push(
                Stream {
                    info_kind: entry.info_kind,
                    parameter: entry.parameter.clone(),
                    search_kind: entry.search_kind,
                    stream_kind: entry.stream_kind,
                    stream_type: entry.stream_type,
                },
            );
            i = i + 1;
        }
        r
    }

    /// Parses the engine's self-describing parameter catalogue.  The blob
    /// is a sequence of blocks: a line naming a stream kind, then one
    /// parameter name per line, then a blank line.  Lines are trimmed of
    /// surrounding whitespace.  A malformed line where a kind was expected
    /// (blank, or not a recognized kind) stops parsing; everything
    /// accumulated up to that point is returned.
    pub fn parse(registry: &BuiltInRegistry, info_parameters: String) -> (r: Vec<Stream>)
        ensures
            stream_entries(r@) == parse_catalogue(info_parameters@),
            forall|i: int| 0 <= i < r@.len() ==> {
                &&& (#[trigger] r@[i]).info_kind == MediaInfoPropertyKind::Text
                &&& r@[i].search_kind == MediaInfoPropertyKind::Name
                &&& r@[i].stream_type == classify_spec(
                    registry@,
                    r@[i].stream_kind,
                    r@[i].parameter@,
                )
            },
    {
        let lines = split_lines(info_parameters.as_str());
        let ghost all = seq_views(lines@);
        let mut streams: Vec<Stream> = Vec::new();
        let mut expect_kind: bool = true;
        let mut kind = MediaInfoStreamKind::General;
        let mut i: usize = 0;
        proof {
            assert(all.skip(0) =~= all);
            assert(stream_entries(streams@) + parse_catalogue(info_parameters@) =~= parse_catalogue(
                info_parameters@,
            ));
        }
        while i < lines.len()
            invariant
                all == seq_views(lines@),
                all == split_lines_spec(info_parameters@),
                i <= lines@.len(),
                all.len() == lines@.len(),
                stream_entries(streams@) + parse_rest(all.skip(i as int), expect_kind, kind)
                    == parse_catalogue(info_parameters@),
                forall|k: int| 0 <= k < streams@.len() ==> {
                    &&& (#[trigger] streams@[k]).info_kind == MediaInfoPropertyKind::Text
                    &&& streams@[k].search_kind == MediaInfoPropertyKind::Name
                    &&& streams@[k].stream_type == classify_spec(
                        registry@,
                        streams@[k].stream_kind,
                        streams@[k].parameter@,
                    )
                },
            ensures
                stream_entries(streams@) == parse_catalogue(info_parameters@),
                forall|k: int| 0 <= k < streams@.len() ==> {
                    &&& (#[trigger] streams@[k]).info_kind == MediaInfoPropertyKind::Text
                    &&& streams@[k].search_kind == MediaInfoPropertyKind::Name
                    &&& streams@[k].stream_type == classify_spec(
                        registry@,
                        streams@[k].stream_kind,
                        streams@[k].parameter@,
                    )
                },
            decreases lines@.len() - i,
        {
            proof {
                assert(all.skip(i as int)[0] == all[i as int]);
                assert(all.skip(i as int).drop_first() =~= all.skip(i as int + 1));
            }
            let line = trim_str(lines[i].as_str());
            if expect_kind {
                if line.as_str().is_empty() {
                    proof {
                        assert(parse_rest(all.skip(i as int), true, kind)
                            =~= Seq::<(MediaInfoStreamKind, Seq<char>)>::empty());
                        assert(stream_entries(streams@) + parse_rest(all.skip(i as int), true, kind)
                            =~= stream_entries(streams@));
                    }
                    break;
                }
                let parsed = MediaInfoStreamKind::parse(line.as_str());
                if parsed == MediaInfoStreamKind::Max {
                    proof {
                        assert(parse_rest(all.skip(i as int), true, kind)
                            =~= Seq::<(MediaInfoStreamKind, Seq<char>)>::empty());
                        assert(stream_entries(streams@) + parse_rest(all.skip(i as int), true, kind)
                            =~= stream_entries(streams@));
                    }
                    break;
                }
                kind = parsed;
                expect_kind = false;
            } else {
                if line.as_str().is_empty() {
                    expect_kind = true;
                } else {
                    let stream_type = registry.classify(kind, line.as_str());
                    let ghost old_streams = streams@;
                    streams.push(
                        Stream {
                            info_kind: MediaInfoPropertyKind::Text,
                            parameter: line,
                            search_kind: MediaInfoPropertyKind::Name,
                            stream_kind: kind,
                            stream_type,
                        },
                    );
                    proof {
                        let entry = (kind, trim_spec(all[i as int]));
                        assert(stream_entries(streams@) =~= stream_entries(old_streams) + seq![
                            entry,
                        ]);
                        assert(stream_entries(old_streams) + (seq![entry] + parse_rest(
                            all.skip(i as int + 1),
                            false,
                            kind,
                        )) =~= stream_entries(streams@) + parse_rest(
                            all.skip(i as int + 1),
                            false,
                            kind,
                        ));
                    }
                }
            }
            i = i + 1;
        }
        streams
    }

    /// The identifier key of this entry, such as `General/Duration`.
    pub fn get_identifier(&self) -> (r: String)
        ensures
            r@ == identifier_spec(self.stream_kind, self.parameter@),
    {
        let mut r = String::from_str(self.stream_kind.get_name());
        r.append("/");
        r.append(self.parameter.as_str());
        proof {
            reveal_strlit("/");
            assert(r@ =~= identifier_spec(self.stream_kind, self.parameter@));
        }
        r
    }
}

} // verus!
