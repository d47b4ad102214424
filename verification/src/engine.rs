//! The segmentation engine. The engine itself is wordcut_engine's, loaded
//! once from a dictionary word list and immutable afterwards; the trusted
//! items below say what its two operations yield, and everything the service
//! then does with the results is verified.

use vstd::prelude::*;
use wordcut_engine::edge::EdgeType;

verus! {

#[verifier::external_type_specification]
#[verifier::external_body]
#[verifier::reject_recursive_types(Elem)]
#[verifier::reject_recursive_types(Payload)]
pub struct ExPrefixTree<Elem: std::hash::Hash + Eq + Clone, Payload>(
    prefixtree::PrefixTree<Elem, Payload>,
);

#[verifier::external_type_specification]
#[verifier::external_body]
pub struct ExWordcut(wordcut_engine::Wordcut);

/// The tag under which a lattice edge kind appears in a `/dag` response,
/// mirroring wordcut_engine's own edge kinds.
#[derive(Clone, Copy, PartialEq, Eq, Structural, Debug)]
pub enum EdgeKind {
    Init,
    Dict,
    Unk,
    Pat,
}

impl EdgeKind {
    pub open spec fn tag(self) -> int {
        match self {
            EdgeKind::Init => 0,
            EdgeKind::Dict => 1,
            EdgeKind::Unk => 2,
            EdgeKind::Pat => 3,
        }
    }
}

/// One edge of the segmentation lattice: the candidate token spans the char
/// positions `s` (inclusive) to `e` (exclusive).
#[derive(Clone, Copy, PartialEq, Eq, Structural, Debug)]
pub struct LatticeEdge {
    pub s: usize,
    pub e: usize,
    pub etype: EdgeKind,
}

impl View for LatticeEdge {
    type V = (int, int, int);

    open spec fn view(&self) -> (int, int, int) {
        (self.s as int, self.e as int, self.etype.tag())
    }
}

impl DeepView for LatticeEdge {
    type V = (int, int, int);

    open spec fn deep_view(&self) -> (int, int, int) {
        self.view()
    }
}

/// The dictionary prefix tree's content: one entry per `(row, position,
/// element)` edge of the tree, carrying the child row, the terminal flag and
/// the payload, exactly as the dictionary crate stores them.
pub uninterp spec fn dict_table(d: prefixtree::PrefixTree<char, bool>) -> Map<
    (int, int, char),
    (int, bool, Option<bool>),
>;

/// The tree content that building the dictionary over a word list yields: a
/// pure function of the list, since the build inserts the words one by one
/// in order and consults nothing else.
pub uninterp spec fn tree_table_of(words: Seq<Seq<char>>) -> Map<
    (int, int, char),
    (int, bool, Option<bool>),
>;

/// The token table of the engine built over a dictionary with the crate's
/// fixed default rules: a pure function of the tree content, since
/// segmentation reads the tree only through lookups and otherwise uses only
/// those fixed rules.
pub uninterp spec fn seg_of_table(t: Map<(int, int, char), (int, bool, Option<bool>)>) -> Map<
    Seq<char>,
    Seq<Seq<char>>,
>;

/// The lattice table of the engine built over a dictionary with the crate's
/// fixed default rules, on the same grounds as [`seg_of_table`].
pub uninterp spec fn dag_of_table(t: Map<(int, int, char), (int, bool, Option<bool>)>) -> Map<
    Seq<char>,
    Seq<Seq<(int, int, int)>>,
>;

/// The token table determined by a dictionary word list.
pub open spec fn seg_table_of(words: Seq<Seq<char>>) -> Map<Seq<char>, Seq<Seq<char>>> {
    seg_of_table(tree_table_of(words))
}

/// The lattice table determined by a dictionary word list.
pub open spec fn dag_table_of(words: Seq<Seq<char>>) -> Map<Seq<char>, Seq<Seq<(int, int, int)>>> {
    dag_of_table(tree_table_of(words))
}

/// The token lists a given engine yields, one for each text. Segmentation
/// reads the engine's dictionary and nothing else that varies, so the table
/// is fixed with the engine.
pub uninterp spec fn engine_segmentation(w: wordcut_engine::Wordcut) -> Map<
    Seq<char>,
    Seq<Seq<char>>,
>;

/// The segmentation lattices a given engine yields, one for each text; an
/// edge is modelled by its `(s, e, etype)` triple.
pub uninterp spec fn engine_dag(w: wordcut_engine::Wordcut) -> Map<
    Seq<char>,
    Seq<Seq<(int, int, int)>>,
>;

/// Relies on wordcut_engine::create_prefix_tree: it builds the dictionary
/// prefix tree over the given words, deterministically in the list alone.
#[verifier::external_body]
fn make_dict(words: &Vec<String>) -> (r: prefixtree::PrefixTree<char, bool>)
    ensures
        dict_table(r) == tree_table_of(words.deep_view()),
{
    let refs: Vec<&str> = words.iter().map(|w| w.as_str()).collect();
    wordcut_engine::create_prefix_tree(&refs)
}

/// Relies on wordcut_engine::Wordcut::new: it builds the engine over the
/// given dictionary, with the crate's fixed default splitting rules and no
/// cluster rules, so both of the engine's tables are determined by the
/// dictionary's content.
#[verifier::external_body]
fn wordcut_new(dict: prefixtree::PrefixTree<char, bool>) -> (r: wordcut_engine::Wordcut)
    ensures
        engine_segmentation(r) == seg_of_table(dict_table(dict)),
        engine_dag(r) == dag_of_table(dict_table(dict)),
{
    wordcut_engine::Wordcut::new(dict)
}

/// Builds the engine over a dictionary word list, as the service does once
/// at startup: its token and lattice tables are exactly those the word list
/// determines.
pub fn engine_from_words(words: &Vec<String>) -> (r: wordcut_engine::Wordcut)
    ensures
        engine_segmentation(r) == seg_table_of(words.deep_view()),
        engine_dag(r) == dag_table_of(words.deep_view()),
{
    wordcut_new(make_dict(words))
}

/// Relies on wordcut_engine::Wordcut::segment_into_strings: the tokens are
/// the text's chars cut at a path of the segmentation lattice, so their
/// concatenation, in order, is exactly the text; which cuts are made depends
/// on the engine and the text alone.
#[verifier::external_body]
pub(crate) fn segment(w: &wordcut_engine::Wordcut, text: &str) -> (r: Vec<String>)
    ensures
        r.deep_view() == engine_segmentation(*w)[text@],
        r.deep_view().flatten() == text@,
{
    w.segment_into_strings(text)
}

/// Relies on wordcut_engine::Wordcut::build_dag: one edge list for each char
/// position of the text, each edge carrying its span and kind; the lattice
/// depends on the engine and the text alone. The body only re-labels each
/// edge with this crate's edge type.
#[verifier::external_body]
pub(crate) fn build_dag(w: &wordcut_engine::Wordcut, text: &str) -> (r: Vec<Vec<LatticeEdge>>)
    ensures
        r.deep_view() == engine_dag(*w)[text@],
{
    w.build_dag(text).into_iter().map(|es| es.into_iter().map(|e| LatticeEdge {
        s: e.s,
        e: e.e,
        etype: match e.etype {
            EdgeType::Init => EdgeKind::Init,
            EdgeType::Dict => EdgeKind::Dict,
            EdgeType::Unk => EdgeKind::Unk,
            EdgeType::Pat => EdgeKind::Pat,
        },
    }).collect()).collect()
}

} // verus!
