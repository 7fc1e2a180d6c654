//! The pure decision core of the boundary operations: validating input
//! paths, expanding directory listings one level, filtering by active
//! extensions, numbering the catalogue as identified parameters, grouping
//! property queries by stream kind, pairing stream counts, and dropping
//! empty property values.  The surrounding application performs the
//! file-system and engine calls and hands their outcomes here as plain
//! values.

use vstd::prelude::*;
use vstd::string::StringExecFns;

use crate::media_info::{stream_kind_values, MediaInfoStreamKind};
use crate::paths::{extension_of, get_extension, opt_view};
use crate::streams::Stream;
use crate::text::{clone_strings, contains_str, seq_views};

verus! {

/// What a path names on disk, as the application observed it.
#[derive(Clone, Copy, Debug, PartialEq, Eq, Structural)]
pub enum PathKind {
    File,
    Directory,
    Missing,
    Other,
}

/// One entry of a directory listing.
#[derive(Debug)]
pub struct DirEntry {
    pub path: String,
    pub kind: PathKind,
}

/// One input path with what it names and, when it is a directory, its
/// immediate children.
#[derive(Debug)]
pub struct PathListing {
    pub path: String,
    pub kind: PathKind,
    pub children: Vec<DirEntry>,
}

/// The failures the boundary operations report.  Each carries the
/// offending path.
#[derive(Debug)]
pub enum MediaError {
    PathNotFound(String),
    PathNotFile(String),
}

/// The descriptive text of each failure.
pub open spec fn error_message_spec(e: MediaError) -> Seq<char> {
    match e {
        MediaError::PathNotFound(p) => "Path "@ + p@ + " does not exist."@,
        MediaError::PathNotFile(p) => "Path "@ + p@ + " is not a file."@,
    }
}

impl MediaError {
    /// The flat descriptive string shown for this failure.
    pub fn message(&self) -> (r: String)
        ensures
            r@ == error_message_spec(*self),
    {
        match self {
            MediaError::PathNotFound(p) => {
                let mut r = String::from_str("Path ");
                r.append(p.as_str());
                r.append(" does not exist.");
                r
            },
            MediaError::PathNotFile(p) => {
                let mut r = String::from_str("Path ");
                r.append(p.as_str());
                r.append(" is not a file.");
                r
            },
        }
    }
}

/// Accepts exactly the paths that name a file; a missing path and a
/// non-file path are distinct failures.
pub fn validate_path_as_file(path: &str, kind: PathKind) -> (r: Result<(), MediaError>)
    ensures
        r is Ok <==> kind == PathKind::File,
        kind == PathKind::Missing ==> (r matches Err(MediaError::PathNotFound(p)) && p@ == path@),
        kind == PathKind::Directory || kind == PathKind::Other ==> (r matches Err(
            MediaError::PathNotFile(p),
        ) && p@ == path@),
{
    match kind {
        PathKind::File => Ok(()),
        PathKind::Missing => Err(MediaError::PathNotFound(path.to_owned())),
        PathKind::Directory => Err(MediaError::PathNotFile(path.to_owned())),
        PathKind::Other => Err(MediaError::PathNotFile(path.to_owned())),
    }
}

/// The file children of a directory listing, in listing order;
/// subdirectories and everything below them are left out.
pub open spec fn file_children(children: Seq<DirEntry>) -> Seq<String>
    decreases children.len(),
{
    if children.len() == 0 {
        Seq::empty()
    } else {
        let rest = file_children(children.drop_last());
        if children.last().kind == PathKind::File {
            rest.push(children.last().path)
        } else {
            rest
        }
    }
}

/// The files one input path contributes: itself when it is a file, its
/// immediate file children when it is a directory, nothing otherwise.
pub open spec fn expand_listing(l: PathListing) -> Seq<String> {
    if l.kind == PathKind::File {
        seq![l.path]
    } else if l.kind == PathKind::Directory {
        file_children(l.children@)
    } else {
        Seq::empty()
    }
}

/// All files the input paths contribute, in input order.
pub open spec fn expand_all(inputs: Seq<PathListing>) -> Seq<String>
    decreases inputs.len(),
{
    if inputs.len() == 0 {
        Seq::empty()
    } else {
        expand_all(inputs.drop_last()) + expand_listing(inputs.last())
    }
}

/// Whether a path passes the extension filter: it has an extension and
/// that extension is active.
pub open spec fn keep_path(exts: Seq<Seq<char>>, path: Seq<char>) -> bool {
    match extension_of(path) {
        Some(e) => exts.contains(e),
        None => false,
    }
}

/// The paths that pass the extension filter, in order.
pub open spec fn filter_paths(exts: Seq<Seq<char>>, paths: Seq<String>) -> Seq<String>
    decreases paths.len(),
{
    if paths.len() == 0 {
        Seq::empty()
    } else {
        let rest = filter_paths(exts, paths.drop_last());
        if keep_path(exts, paths.last()@) {
            rest.push(paths.last())
        } else {
            rest
        }
    }
}

/// What a file-listing request returns: every expanded file when no
/// extension is active — an empty selection means "unfiltered", not
/// "nothing matches" — and otherwise only the files whose extension is
/// active.
pub open spec fn listed_files_spec(inputs: Seq<PathListing>, exts: Seq<Seq<char>>) -> Seq<
    String,
> {
    if exts.len() == 0 {
        expand_all(inputs)
    } else {
        filter_paths(exts, expand_all(inputs))
    }
}

/// `i` is the position of the first missing input path.
pub open spec fn is_first_missing(inputs: Seq<PathListing>, i: int) -> bool {
    &&& 0 <= i < inputs.len()
    &&& inputs[i].kind == PathKind::Missing
    &&& forall|j: int| 0 <= j < i ==> (#[trigger] inputs[j]).kind != PathKind::Missing
}

/// Keeps the paths whose extension is active; an empty extension list
/// disables filtering and passes every path through.
pub fn filter_files_by_extensions(paths: &Vec<String>, extensions: &Vec<String>) -> (r: Vec<
    String,
>)
    ensures
        extensions@.len() == 0 ==> r@ == paths@,
        extensions@.len() > 0 ==> r@ == filter_paths(seq_views(extensions@), paths@),
{
    if extensions.len() == 0 {
        return clone_strings(paths);
    }
    let mut r: Vec<String> = Vec::new();
    let mut i: usize = 0;
    proof {
        assert(paths@.take(0) =~= Seq::<String>::empty());
    }
    while i < paths.len()
        invariant
            i <= paths@.len(),
            r@ == filter_paths(seq_views(extensions@), paths@.take(i as int)),
        decreases paths@.len() - i,
    {
        let keep = match get_extension(paths[i].as_str()) {
            Some(e) => contains_str(extensions, e.as_str()),
            None => false,
        };
        proof {
            assert(paths@.take(i as int + 1).drop_last() =~= paths@.take(i as int));
            assert(paths@.take(i as int + 1).last() == paths@[i as int]);
        }
        if keep {
            r.push(paths[i].clone());
        }
        i = i + 1;
    }
    proof {
        assert(paths@.take(paths@.len() as int) =~= paths@);
    }
    r
}

/// Expands the input paths one level — files stand for themselves, a
/// directory contributes its immediate file children — then applies the
/// active extension filter.  A missing input path fails the whole request
/// with no partial result.
pub fn get_files(inputs: &Vec<PathListing>, extensions: &Vec<String>) -> (r: Result<
    Vec<String>,
    MediaError,
>)
    ensures
        r is Ok <==> (forall|i: int| 0 <= i < inputs@.len() ==> (#[trigger] inputs@[i]).kind
            != PathKind::Missing),
        r matches Ok(paths) ==> paths@ == listed_files_spec(inputs@, seq_views(extensions@)),
        r matches Err(e) ==> (e matches MediaError::PathNotFound(p) && exists|i: int|
            is_first_missing(inputs@, i) && p@ == (#[trigger] inputs@[i]).path@),
{
    let mut expanded: Vec<String> = Vec::new();
    let mut i: usize = 0;
    proof {
        assert(inputs@.take(0) =~= Seq::<PathListing>::empty());
    }
    while i < inputs.len()
        invariant
            i <= inputs@.len(),
            forall|j: int| 0 <= j < i ==> (#[trigger] inputs@[j]).kind != PathKind::Missing,
            expanded@ == expand_all(inputs@.take(i as int)),
        decreases inputs@.len() - i,
    {
        proof {
            assert(inputs@.take(i as int + 1).drop_last() =~= inputs@.take(i as int));
            assert(inputs@.take(i as int + 1).last() == inputs@[i as int]);
        }
        let input = &inputs[i];
        match input.kind {
            PathKind::Missing => {
                proof {
                    assert(is_first_missing(inputs@, i as int));
                }
                return Err(MediaError::PathNotFound(input.path.clone()));
            },
            PathKind::File => {
                let ghost before = expanded@;
                expanded.push(input.path.clone());
                proof {
                    assert(expanded@ =~= before + expand_listing(inputs@[i as int]));
                }
            },
            PathKind::Directory => {
                let ghost before = expanded@;
                let mut k: usize = 0;
                proof {
                    assert(input.children@.take(0) =~= Seq::<DirEntry>::empty());
                    assert(before + file_children(input.children@.take(0)) =~= before);
                }
                while k < input.children.len()
                    invariant
                        k <= input.children@.len(),
                        expanded@ == before + file_children(input.children@.take(k as int)),
                    decreases input.children@.len() - k,
                {
                    proof {
                        assert(input.children@.take(k as int + 1).drop_last()
                            =~= input.children@.take(k as int));
                        assert(input.children@.take(k as int + 1).last() == input.children@[k
                            as int]);
                    }
                    let child = &input.children[k];
                    if child.kind == PathKind::File {
                        expanded.push(child.path.clone());
                    }
                    k = k + 1;
                }
                proof {
                    assert(input.children@.take(input.children@.len() as int)
                        =~= input.children@);
                }
            },
            PathKind::Other => {
                proof {
                    assert(expanded@ + expand_listing(inputs@[i as int]) =~= expanded@);
                }
            },
        }
        i = i + 1;
    }
    proof {
        assert(inputs@.take(inputs@.len() as int) =~= inputs@);
    }
    Ok(filter_files_by_extensions(&expanded, extensions))
}

/// One catalogue entry as the front-end lists it: a session-unique
/// identifier, the stream kind and the parameter name.
#[derive(Debug)]
pub struct Parameter {
    pub id: i32,
    pub stream: MediaInfoStreamKind,
    pub property: String,
}

/// Numbers the discovered catalogue in order: entry `i` becomes the
/// parameter with identifier `i`, keeping kind and name.
pub fn get_parameters(streams: &Vec<Stream>) -> (r: Vec<Parameter>)
    requires
        streams@.len() <= i32::MAX,
    ensures
        r@.len() == streams@.len(),
        forall|i: int| 0 <= i < r@.len() ==> {
            &&& (#[trigger] r@[i]).id as int == i
            &&& r@[i].stream == streams@[i].stream_kind
            &&& r@[i].property@ == streams@[i].parameter@
        },
{
    let mut r: Vec<Parameter> = Vec::new();
    let mut i: usize = 0;
    while i < streams.len()
        invariant
            i <= streams@.len(),
            streams@.len() <= i32::MAX,
            r@.len() == i,
            forall|j: int| 0 <= j < i ==> {
                &&& (#[trigger] r@[j]).id as int == j
                &&& r@[j].stream == streams@[j].stream_kind
                &&& r@[j].property@ == streams@[j].parameter@
            },
        decreases streams@.len() - i,
    {
        let entry = &streams[i];
        r.push(
            Parameter { id: i as i32, stream: entry.stream_kind, property: entry.parameter.clone() },
        );
        i = i + 1;
    }
    r
}

/// One instance count, as the front-end receives it.
#[derive(Debug)]
pub struct StreamCount {
    pub stream: MediaInfoStreamKind,
    pub count: i32,
}

/// Pairs each stream kind, in engine numbering order, with the instance
/// count the engine reported for it.
pub fn build_stream_counts(counts: &Vec<usize>) -> (r: Vec<StreamCount>)
    requires
        counts@.len() == stream_kind_values().len(),
        forall|i: int| 0 <= i < counts@.len() ==> (#[trigger] counts@[i]) <= i32::MAX,
    ensures
        r@.len() == counts@.len(),
        forall|i: int| 0 <= i < r@.len() ==> {
            &&& (#[trigger] r@[i]).stream == stream_kind_values()[i]
            &&& r@[i].count as int == counts@[i]
        },
{
    let kinds = MediaInfoStreamKind::values();
    let mut r: Vec<StreamCount> = Vec::new();
    let mut i: usize = 0;
    while i < counts.len()
        invariant
            i <= counts@.len(),
            counts@.len() == stream_kind_values().len(),
            kinds@ == stream_kind_values(),
            forall|j: int| 0 <= j < counts@.len() ==> (#[trigger] counts@[j]) <= i32::MAX,
            r@.len() == i,
            forall|j: int| 0 <= j < i ==> {
                &&& (#[trigger] r@[j]).stream == stream_kind_values()[j]
                &&& r@[j].count as int == counts@[j]
            },
        decreases counts@.len() - i,
    {
        r.push(StreamCount { stream: kinds[i], count: counts[i] as i32 });
        i = i + 1;
    }
    r
}

/// One requested (stream kind, parameter) pair of a property query.
#[derive(Debug)]
pub struct StreamProperty {
    pub stream: MediaInfoStreamKind,
    pub property: String,
}

/// The resolved properties of one stream instance: the kind, the instance
/// number, and the non-empty (parameter, value) pairs in query order.
#[derive(Debug)]
pub struct StreamPropertyMap {
    pub stream: MediaInfoStreamKind,
    pub num: i32,
    pub property_map: Vec<(String, String)>,
}

/// The distinct stream kinds of a property request, in order of first
/// appearance.
pub open spec fn kinds_in_order(props: Seq<StreamProperty>) -> Seq<MediaInfoStreamKind>
    decreases props.len(),
{
    if props.len() == 0 {
        Seq::empty()
    } else {
        let rest = kinds_in_order(props.drop_last());
        if rest.contains(props.last().stream) {
            rest
        } else {
            rest.push(props.last().stream)
        }
    }
}

/// The requested parameter names of one stream kind, in request order.
pub open spec fn properties_of_kind(
    props: Seq<StreamProperty>,
    kind: MediaInfoStreamKind,
) -> Seq<Seq<char>>
    decreases props.len(),
{
    if props.len() == 0 {
        Seq::empty()
    } else {
        let rest = properties_of_kind(props.drop_last(), kind);
        if props.last().stream == kind {
            rest.push(props.last().property@)
        } else {
            rest
        }
    }
}

/// The catalogue parameter names of one stream kind, in catalogue order.
pub open spec fn catalogue_params_of_kind(
    streams: Seq<Stream>,
    kind: MediaInfoStreamKind,
) -> Seq<Seq<char>>
    decreases streams.len(),
{
    if streams.len() == 0 {
        Seq::empty()
    } else {
        let rest = catalogue_params_of_kind(streams.drop_last(), kind);
        if streams.last().stream_kind == kind {
            rest.push(streams.last().parameter@)
        } else {
            rest
        }
    }
}

/// A kind appears in the ordered kind list exactly when some request
/// names it.
pub proof fn lemma_kind_listed(props: Seq<StreamProperty>, kind: MediaInfoStreamKind)
    ensures
        kinds_in_order(props).contains(kind) <==> properties_of_kind(props, kind).len() > 0,
    decreases props.len(),
{
    if props.len() > 0 {
        lemma_kind_listed(props.drop_last(), kind);
        let rest = kinds_in_order(props.drop_last());
        let last = props.last();
        if last.stream == kind {
            if !rest.contains(kind) {
                assert(rest.push(kind)[rest.len() as int] == kind);
                assert(rest.push(kind).contains(kind));
            }
        } else {
            if !rest.contains(last.stream) {
                if rest.contains(kind) {
                    let j = choose|j: int| 0 <= j < rest.len() && rest[j] == kind;
                    assert(rest.push(last.stream)[j] == kind);
                    assert(rest.push(last.stream).contains(kind));
                }
                if rest.push(last.stream).contains(kind) {
                    let j = choose|j: int|
                        0 <= j < rest.push(last.stream).len() && rest.push(last.stream)[j]
                            == kind;
                    assert(j < rest.len());
                    assert(rest[j] == kind);
                    assert(rest.contains(kind));
                }
            }
        }
    }
}

/// The position of the group already collecting the given kind, if any.
fn find_group(
    groups: &Vec<(MediaInfoStreamKind, Vec<String>)>,
    kind: MediaInfoStreamKind,
) -> (r: Option<usize>)
    ensures
        match r {
            Some(g) => g < groups@.len() && groups@[g as int].0 == kind,
            None => forall|j: int| 0 <= j < groups@.len() ==> (#[trigger] groups@[j]).0 != kind,
        },
{
    let mut g: usize = 0;
    while g < groups.len()
        invariant
            g <= groups@.len(),
            forall|j: int| 0 <= j < g ==> (#[trigger] groups@[j]).0 != kind,
        decreases groups@.len() - g,
    {
        if groups[g].0 == kind {
            return Some(g);
        }
        g = g + 1;
    }
    None
}

/// Groups a property request by stream kind: the explicitly requested
/// pairs, grouped under each kind in order of first appearance; or, when
/// no request is given, the full discovered catalogue under every stream
/// kind in engine order — "no selection" means "everything", not
/// "nothing".
pub fn group_properties(
    properties: Option<Vec<StreamProperty>>,
    all_streams: &Vec<Stream>,
) -> (r: Vec<(MediaInfoStreamKind, Vec<String>)>)
    ensures
        match properties {
            Some(props) => {
                &&& r@.len() == kinds_in_order(props@).len()
                &&& forall|j: int| 0 <= j < r@.len() ==> (#[trigger] r@[j]).0 == kinds_in_order(
                    props@,
                )[j]
                &&& forall|j: int| 0 <= j < r@.len() ==> seq_views((#[trigger] r@[j]).1@)
                    == properties_of_kind(props@, r@[j].0)
            },
            None => {
                &&& r@.len() == stream_kind_values().len()
                &&& forall|j: int| 0 <= j < r@.len() ==> (#[trigger] r@[j]).0
                    == stream_kind_values()[j]
                &&& forall|j: int| 0 <= j < r@.len() ==> seq_views((#[trigger] r@[j]).1@)
                    == catalogue_params_of_kind(all_streams@, r@[j].0)
            },
        },
{
    match properties {
        Some(props) => {
            let mut groups: Vec<(MediaInfoStreamKind, Vec<String>)> = Vec::new();
            let mut i: usize = 0;
            proof {
                assert(props@.take(0) =~= Seq::<StreamProperty>::empty());
            }
            while i < props.len()
                invariant
                    i <= props@.len(),
                    groups@.len() == kinds_in_order(props@.take(i as int)).len(),
                    forall|j: int| 0 <= j < groups@.len() ==> (#[trigger] groups@[j]).0
                        == kinds_in_order(props@.take(i as int))[j],
                    forall|j: int| 0 <= j < groups@.len() ==> seq_views(
                        (#[trigger] groups@[j]).1@,
                    ) == properties_of_kind(props@.take(i as int), groups@[j].0),
                    forall|j1: int, j2: int| 0 <= j1 < j2 < groups@.len()
                        ==> (#[trigger] groups@[j1]).0 != (#[trigger] groups@[j2]).0,
                decreases props@.len() - i,
            {
                proof {
                    assert(props@.take(i as int + 1).drop_last() =~= props@.take(i as int));
                    assert(props@.take(i as int + 1).last() == props@[i as int]);
                }
                let p = &props[i];
                let ghost prev = props@.take(i as int);
                let ghost prev_kinds = kinds_in_order(prev);
                match find_group(&groups, p.stream) {
                    Some(g) => {
                        proof {
                            assert(prev_kinds[g as int] == p.stream);
                            assert(prev_kinds.contains(p.stream));
                        }
                        let ghost old_groups = groups@;
                        let mut entry = groups.remove(g);
                        let ghost old_list = entry.1@;
                        entry.1.push(p.property.clone());
                        groups.insert(g, entry);
                        proof {
                            assert(groups@ =~= old_groups.update(
                                g as int,
                                (old_groups[g as int].0, groups@[g as int].1),
                            ));
                            assert(seq_views(groups@[g as int].1@) =~= seq_views(old_list).push(
                                props@[i as int].property@,
                            ));
                        }
                    },
                    None => {
                        proof {
                            if prev_kinds.contains(p.stream) {
                                let j = choose|j: int|
                                    0 <= j < prev_kinds.len() && prev_kinds[j] == p.stream;
                                assert(groups@[j].0 == p.stream);
                                assert(false);
                            }
                            lemma_kind_listed(prev, p.stream);
                            assert(properties_of_kind(prev, p.stream) =~= Seq::<
                                Seq<char>,
                            >::empty());
                        }
                        let mut list: Vec<String> = Vec::new();
                        list.push(p.property.clone());
                        proof {
                            assert(seq_views(list@) =~= Seq::<Seq<char>>::empty().push(
                                props@[i as int].property@,
                            ));
                        }
                        groups.push((p.stream, list));
                    },
                }
                i = i + 1;
            }
            proof {
                assert(props@.take(props@.len() as int) =~= props@);
            }
            groups
        },
        None => {
            let kinds = MediaInfoStreamKind::values();
            let mut groups: Vec<(MediaInfoStreamKind, Vec<String>)> = Vec::new();
            let mut i: usize = 0;
            while i < kinds.len()
                invariant
                    kinds@ == stream_kind_values(),
                    i <= kinds@.len(),
                    groups@.len() == i,
                    forall|j: int| 0 <= j < i ==> (#[trigger] groups@[j]).0
                        == stream_kind_values()[j],
                    forall|j: int| 0 <= j < i ==> seq_views((#[trigger] groups@[j]).1@)
                        == catalogue_params_of_kind(all_streams@, groups@[j].0),
                decreases kinds@.len() - i,
            {
                let kind = kinds[i];
                let mut list: Vec<String> = Vec::new();
                let mut t: usize = 0;
                proof {
                    assert(all_streams@.take(0) =~= Seq::<Stream>::empty());
                    assert(seq_views(list@) =~= Seq::<Seq<char>>::empty());
                }
                while t < all_streams.len()
                    invariant
                        t <= all_streams@.len(),
                        seq_views(list@) == catalogue_params_of_kind(
                            all_streams@.take(t as int),
                            kind,
                        ),
                    decreases all_streams@.len() - t,
                {
                    proof {
                        assert(all_streams@.take(t as int + 1).drop_last() =~= all_streams@.take(
                            t as int,
                        ));
                        assert(all_streams@.take(t as int + 1).last() == all_streams@[t as int]);
                    }
                    let entry = &all_streams[t];
                    if entry.stream_kind == kind {
                        let ghost before = list@;
                        list.push(entry.parameter.clone());
                        proof {
                            assert(seq_views(list@) =~= seq_views(before).push(
                                all_streams@[t as int].parameter@,
                            ));
                        }
                    }
                    t = t + 1;
                }
                proof {
                    assert(all_streams@.take(all_streams@.len() as int) =~= all_streams@);
                }
                groups.push((kind, list));
                i = i + 1;
            }
            groups
        },
    }
}

/// The views of a list of (parameter, value) pairs.
pub open spec fn pair_views(prs: Seq<(String, String)>) -> Seq<(Seq<char>, Seq<char>)> {
    prs.map_values(|pr: (String, String)| (pr.0@, pr.1@))
}

/// Parameters zipped with their resolved values, as views.
pub open spec fn zip_views(ps: Seq<String>, vs: Seq<String>) -> Seq<(Seq<char>, Seq<char>)> {
    Seq::new(ps.len(), |i: int| (ps[i]@, vs[i]@))
}

/// The pairs whose value is non-empty, in order.
pub open spec fn kept_properties(pairs: Seq<(Seq<char>, Seq<char>)>) -> Seq<
    (Seq<char>, Seq<char>),
>
    decreases pairs.len(),
{
    if pairs.len() == 0 {
        Seq::empty()
    } else {
        let rest = kept_properties(pairs.drop_last());
        if pairs.last().1.len() > 0 {
            rest.push(pairs.last())
        } else {
            rest
        }
    }
}

/// Pairs each queried parameter with the value the resolver returned for
/// it and drops the pairs with empty values: an empty value means "not
/// applicable to this instance" and never appears in a property listing.
pub fn build_property_map(parameters: &Vec<String>, values: &Vec<String>) -> (r: Vec<
    (String, String),
>)
    requires
        parameters@.len() == values@.len(),
    ensures
        pair_views(r@) == kept_properties(zip_views(parameters@, values@)),
{
    let ghost zipped = zip_views(parameters@, values@);
    let mut r: Vec<(String, String)> = Vec::new();
    let mut i: usize = 0;
    proof {
        assert(zipped.take(0) =~= Seq::<(Seq<char>, Seq<char>)>::empty());
        assert(pair_views(r@) =~= Seq::<(Seq<char>, Seq<char>)>::empty());
    }
    while i < parameters.len()
        invariant
            i <= parameters@.len(),
            parameters@.len() == values@.len(),
            zipped == zip_views(parameters@, values@),
            pair_views(r@) == kept_properties(zipped.take(i as int)),
        decreases parameters@.len() - i,
    {
        proof {
            assert(zipped.take(i as int + 1).drop_last() =~= zipped.take(i as int));
            assert(zipped.take(i as int + 1).last() == zipped[i as int]);
        }
        if !values[i].as_str().is_empty() {
            let ghost before = r@;
            r.push((parameters[i].clone(), values[i].clone()));
            proof {
                assert(pair_views(r@) =~= pair_views(before).push(zipped[i as int]));
            }
        }
        i = i + 1;
    }
    proof {
        assert(zipped.take(parameters@.len() as int) =~= zipped);
    }
    r
}

} // verus!
