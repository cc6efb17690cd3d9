use vstd::prelude::*;

verus! {

/// What an option is: its label and the identifier of the arc it leads to.
pub struct OptView {
    pub text: Seq<char>,
    pub arc: Seq<char>,
}

/// What a story arc is: a title, paragraphs in reading order, and choices in order.
pub struct ArcView {
    pub title: Seq<char>,
    pub story: Seq<Seq<char>>,
    pub options: Seq<OptView>,
}

/// One choice offered at the end of an arc.
#[derive(Clone, Debug, PartialEq, Eq)]
pub struct Opt {
    pub text: String,
    /// Backend identifier of the arc this choice leads to; opaque to the viewer.
    pub arc: String,
}

/// One node of the story graph.
#[derive(Clone, Debug, PartialEq, Eq)]
pub struct StoryArc {
    pub title: String,
    pub story: Vec<String>,
    pub options: Vec<Opt>,
}

impl View for Opt {
    type V = OptView;

    open spec fn view(&self) -> OptView {
        OptView { text: self.text@, arc: self.arc@ }
    }
}

impl View for StoryArc {
    type V = ArcView;

    open spec fn view(&self) -> ArcView {
        ArcView {
            title: self.title@,
            story: self.story@.map_values(|s: String| s@),
            options: self.options@.map_values(|o: Opt| o@),
        }
    }
}

/// The arc shown before anything was fetched: no title, no text, no choices.
pub open spec fn empty_arc() -> ArcView {
    ArcView { title: Seq::empty(), story: Seq::empty(), options: Seq::empty() }
}

impl Default for StoryArc {
    fn default() -> (r: Self)
        ensures
            r@ == empty_arc(),
    {
        let r = StoryArc { title: String::new(), story: Vec::new(), options: Vec::new() };
        assert(r@.story =~= Seq::<Seq<char>>::empty());
        assert(r@.options =~= Seq::<OptView>::empty());
        r
    }
}

impl StoryArc {
    /// An arc without options ends the story: nothing can be chosen from it.
    pub fn is_ending(&self) -> (r: bool)
        ensures
            r == (self@.options.len() == 0),
    {
        self.options.len() == 0
    }
}

} // verus!
