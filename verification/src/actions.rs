//! Actions (section 12.6): what a viewer does, such as running JavaScript, and the actions
//! that follow.
use vstd::prelude::*;
use crate::pdf_object::{entries_view, name, obj_view, objs_view, push_entry, push_item, ObjView, PdfObject};

verus! {

/// The code of a JavaScript action: a text string, or a stream with its dictionary and
/// content.
#[derive(Debug)]
pub enum JavascriptSource {
    Text(String),
    Stream(Vec<(String, PdfObject)>, Vec<u8>),
}

/// A JavaScript action.
#[derive(Debug)]
pub struct JavascriptAction {
    pub action: JavascriptSource,
}

/// The object that holds a script's code.
pub open spec fn script_view(s: JavascriptSource) -> ObjView {
    match s {
        JavascriptSource::Text(t) => ObjView::Text(t@),
        JavascriptSource::Stream(d, data) => ObjView::Stream(entries_view(d@), data@, true),
    }
}

/// The entries of a JavaScript action's dictionary.
pub open spec fn javascript_entries(js: JavascriptAction) -> Seq<(Seq<char>, ObjView)> {
    seq![("S"@, ObjView::Name("JavaScript"@)), ("JS"@, script_view(js.action))]
}

impl JavascriptAction {
    /// An action that runs the given code.
    pub fn from_str(code: &str) -> (r: Self)
        ensures
            r.action matches JavascriptSource::Text(t) && t@ == code@,
    {
        JavascriptAction { action: JavascriptSource::Text(code.to_owned()) }
    }

    /// An action that runs the given code.
    pub fn from_string(code: String) -> (r: Self)
        ensures
            r.action matches JavascriptSource::Text(t) && t@ == code@,
    {
        JavascriptAction { action: JavascriptSource::Text(code) }
    }

    /// The action's dictionary: its kind and its code.
    pub fn into_dictionary(self) -> (r: Vec<(String, PdfObject)>)
        ensures
            entries_view(r@) == javascript_entries(self),
    {
        let ghost me = self;
        let mut dict: Vec<(String, PdfObject)> = Vec::new();
        push_entry(&mut dict, "S", name("JavaScript"));
        let code = match self.action {
            JavascriptSource::Text(t) => PdfObject::Text(t),
            JavascriptSource::Stream(d, data) => PdfObject::Stream(d, data, true),
        };
        push_entry(&mut dict, "JS", code);
        assert(entries_view(dict@) =~= javascript_entries(me));
        dict
    }
}

/// The kinds of action.
#[derive(Debug)]
pub enum PdfActionType {
    JavaScript(JavascriptAction),
}

/// The entries of the dictionary of an action's kind.
pub open spec fn action_type_entries(t: PdfActionType) -> Seq<(Seq<char>, ObjView)> {
    match t {
        PdfActionType::JavaScript(js) => javascript_entries(js),
    }
}

impl PdfActionType {
    /// The dictionary of the action's kind.
    pub fn into_dictionary(self) -> (r: Vec<(String, PdfObject)>)
        ensures
            entries_view(r@) == action_type_entries(self),
    {
        match self {
            PdfActionType::JavaScript(js) => js.into_dictionary(),
        }
    }
}

/// An action, and the actions to perform after it, in order.
#[derive(Debug)]
pub struct PdfAction {
    pub action: PdfActionType,
    pub next: Vec<PdfAction>,
}

/// The entries of an action's dictionary: those of its kind, its type, and the actions that
/// follow when there are any.
pub open spec fn action_entries(a: PdfAction) -> Seq<(Seq<char>, ObjView)>
    decreases a, 0nat,
{
    action_type_entries(a.action).push(("Type"@, ObjView::Name("Action"@))) + if a.next@.len() == 0 {
        Seq::empty()
    } else {
        seq![("Next"@, ObjView::Array(actions_view(a.next@)))]
    }
}

/// The dictionaries of actions, as objects.
pub open spec fn actions_view(s: Seq<PdfAction>) -> Seq<ObjView>
    decreases s, 1nat,
{
    if s.len() == 0 {
        Seq::empty()
    } else {
        actions_view(s.drop_last()).push(ObjView::Dictionary(action_entries(s.last())))
    }
}

impl PdfAction {
    /// An action without followers.
    pub fn new(action: PdfActionType) -> (r: Self)
        ensures
            r.action == action,
            r.next@.len() == 0,
    {
        PdfAction { action, next: Vec::new() }
    }

    /// The action's dictionary.
    #[verifier::loop_isolation(false)]
    pub fn into_dictionary(self) -> (r: Vec<(String, PdfObject)>)
        ensures
            entries_view(r@) == action_entries(self),
        decreases self,
    {
        let ghost me = self;
        let PdfAction { action, next } = self;
        let mut dict = action.into_dictionary();
        push_entry(&mut dict, "Type", name("Action"));
        let ghost head = entries_view(dict@);
        if next.len() > 0 {
            let ghost all = next@;
            let count = next.len();
            let mut items: Vec<PdfObject> = Vec::new();
            let mut i: usize = 0;
            for a in iter: next
                invariant
                    i == iter.index(),
                    i <= all.len(),
                    all.len() == count,
                    iter.seq() == all,
                    all == me.next@,
                    objs_view(items@) == actions_view(all.take(i as int)),
            {
                proof {
                    assert(decreases_to!(me => me.next@[i as int]));
                }
                let d = a.into_dictionary();
                push_item(&mut items, PdfObject::Dictionary(d));
                proof {
                    assert(all.take(i + 1).drop_last() =~= all.take(i as int));
                }
                i = i + 1;
            }
            assert(all.take(all.len() as int) =~= all);
            push_entry(&mut dict, "Next", PdfObject::Array(items));
        }
        assert(entries_view(dict@) =~= action_entries(me));
        dict
    }

    /// The action as a dictionary object.
    pub fn into_object(self) -> (r: PdfObject)
        ensures
            obj_view(r) == ObjView::Dictionary(action_entries(self)),
    {
        PdfObject::Dictionary(self.into_dictionary())
    }
}

} // verus!
