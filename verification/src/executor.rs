use vstd::prelude::*;

verus! {

/// A key-value pair attached to an event.
#[derive(Debug)]
pub struct Attribute {
    pub key: String,
    pub value: String,
}

/// An event emitted while a message was processed.
#[derive(Debug)]
pub struct Event {
    pub ty: String,
    pub attributes: Vec<Attribute>,
}

/// What the processing of one message answers: the emitted events and the
/// optional data it returned.
#[derive(Debug)]
pub struct AppResponse {
    pub events: Vec<Event>,
    pub data: Option<Vec<u8>>,
}

/// The mathematical value of an [`Event`].
pub struct EventView {
    pub ty: Seq<char>,
    pub attributes: Seq<(Seq<char>, Seq<char>)>,
}

/// The mathematical value of an [`AppResponse`].
pub struct AppResponseView {
    pub events: Seq<EventView>,
    pub data: Option<Seq<u8>>,
}

impl View for Attribute {
    type V = (Seq<char>, Seq<char>);

    open spec fn view(&self) -> (Seq<char>, Seq<char>) {
        (self.key@, self.value@)
    }
}

impl View for Event {
    type V = EventView;

    open spec fn view(&self) -> EventView {
        EventView { ty: self.ty@, attributes: self.attributes@.map_values(|a: Attribute| a@) }
    }
}

impl View for AppResponse {
    type V = AppResponseView;

    open spec fn view(&self) -> AppResponseView {
        AppResponseView {
            events: self.events@.map_values(|e: Event| e@),
            data: match self.data {
                Some(d) => Some(d@),
                None => None,
            },
        }
    }
}

/// The response with no events and no data.
pub open spec fn empty_response() -> AppResponseView {
    AppResponseView { events: Seq::empty(), data: None }
}

impl Default for AppResponse {
    fn default() -> (res: AppResponse)
        ensures
            res@ == empty_response(),
    {
        let res = AppResponse { events: Vec::new(), data: None };
        assert(res@.events =~= Seq::<EventView>::empty());
        res
    }
}

/// The outcome of an operation that answers with a response, with the error
/// taken as its text.
pub open spec fn response_view(res: Result<AppResponse, String>) -> Result<AppResponseView, Seq<char>> {
    match res {
        Ok(r) => Ok(r@),
        Err(e) => Err(e@),
    }
}

/// The outcome of a query, with the answer and the error taken by their views.
pub open spec fn binary_view(res: Result<Vec<u8>, String>) -> Result<Seq<u8>, Seq<char>> {
    match res {
        Ok(b) => Ok(b@),
        Err(e) => Err(e@),
    }
}

/// An outcome with the error taken as its text.
pub open spec fn error_view<T>(res: Result<T, String>) -> Result<T, Seq<char>> {
    match res {
        Ok(v) => Ok(v),
        Err(e) => Err(e@),
    }
}

} // verus!
