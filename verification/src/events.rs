//! What collaborators on a project are told while they edit.

use vstd::prelude::*;

verus! {

/// How many events the bus keeps for a subscriber that reads slowly.
pub const BUS_CAPACITY: usize = 1024;

/// A subtitle that has just been stored.
#[derive(Clone, Debug, PartialEq, Eq)]
pub struct CreateEventData {
    pub subtitle: i32,
    pub text: String,
    pub start: i32,
    pub end: i32,
}

/// What a [`CreateEventData`] is to a contract.
pub struct CreateEventDataView {
    pub subtitle: i32,
    pub text: Seq<char>,
    pub start: i32,
    pub end: i32,
}

impl DeepView for CreateEventData {
    type V = CreateEventDataView;

    open spec fn deep_view(&self) -> CreateEventDataView {
        CreateEventDataView {
            subtitle: self.subtitle,
            text: self.text@,
            start: self.start,
            end: self.end,
        }
    }
}

impl View for CreateEventData {
    type V = CreateEventDataView;

    open spec fn view(&self) -> CreateEventDataView {
        self.deep_view()
    }
}

/// The fields of a subtitle that an edit set; an absent field was left as it was.
#[derive(Clone, Debug, PartialEq, Eq)]
pub struct EditEventData {
    pub subtitle: i32,
    pub text: Option<String>,
    pub start: Option<i32>,
    pub end: Option<i32>,
}

/// What an [`EditEventData`] is to a contract.
pub struct EditEventDataView {
    pub subtitle: i32,
    pub text: Option<Seq<char>>,
    pub start: Option<i32>,
    pub end: Option<i32>,
}

impl DeepView for EditEventData {
    type V = EditEventDataView;

    open spec fn deep_view(&self) -> EditEventDataView {
        EditEventDataView {
            subtitle: self.subtitle,
            text: self.text.deep_view(),
            start: self.start,
            end: self.end,
        }
    }
}

impl View for EditEventData {
    type V = EditEventDataView;

    open spec fn view(&self) -> EditEventDataView {
        self.deep_view()
    }
}

/// The subtitle that has just been removed.
#[derive(Clone, Copy, Debug, PartialEq, Eq)]
pub struct DeleteEventData {
    pub subtitle: i32,
}

/// The four things that can happen to a project.
#[derive(Clone, Debug, PartialEq, Eq)]
pub enum SubtitleEventType {
    WaveformReady,
    SubtitleCreate(CreateEventData),
    SubtitleEdit(EditEventData),
    SubtitleDelete(DeleteEventData),
}

/// What a [`SubtitleEventType`] is to a contract.
pub enum SubtitleEventTypeView {
    WaveformReady,
    SubtitleCreate(CreateEventDataView),
    SubtitleEdit(EditEventDataView),
    SubtitleDelete(DeleteEventData),
}

impl DeepView for SubtitleEventType {
    type V = SubtitleEventTypeView;

    open spec fn deep_view(&self) -> SubtitleEventTypeView {
        match self {
            SubtitleEventType::WaveformReady => SubtitleEventTypeView::WaveformReady,
            SubtitleEventType::SubtitleCreate(data) => SubtitleEventTypeView::SubtitleCreate(data@),
            SubtitleEventType::SubtitleEdit(data) => SubtitleEventTypeView::SubtitleEdit(data@),
            SubtitleEventType::SubtitleDelete(data) => SubtitleEventTypeView::SubtitleDelete(*data),
        }
    }
}

impl View for SubtitleEventType {
    type V = SubtitleEventTypeView;

    open spec fn view(&self) -> SubtitleEventTypeView {
        self.deep_view()
    }
}

impl SubtitleEventTypeView {
    /// The tag under which an event of this kind is sent to a client.
    pub open spec fn name(self) -> Seq<char> {
        match self {
            SubtitleEventTypeView::WaveformReady => "waveform_ready"@,
            SubtitleEventTypeView::SubtitleCreate(_) => "subtitle_create"@,
            SubtitleEventTypeView::SubtitleEdit(_) => "subtitle_edit"@,
            SubtitleEventTypeView::SubtitleDelete(_) => "subtitle_delete"@,
        }
    }
}

impl SubtitleEventType {
    /// The tag under which an event of this kind is sent to a client.
    pub fn name(&self) -> (tag: &'static str)
        ensures
            tag@ == self@.name(),
    {
        match self {
            SubtitleEventType::WaveformReady => "waveform_ready",
            SubtitleEventType::SubtitleCreate(_) => "subtitle_create",
            SubtitleEventType::SubtitleEdit(_) => "subtitle_edit",
            SubtitleEventType::SubtitleDelete(_) => "subtitle_delete",
        }
    }
}

/// One thing that happened, and the project it happened to.
#[derive(Clone, Debug, PartialEq, Eq)]
pub struct SubtitleEvent {
    pub info: SubtitleEventType,
    pub project: i32,
}

/// What a [`SubtitleEvent`] is to a contract.
pub struct SubtitleEventView {
    pub info: SubtitleEventTypeView,
    pub project: i32,
}

impl DeepView for SubtitleEvent {
    type V = SubtitleEventView;

    open spec fn deep_view(&self) -> SubtitleEventView {
        SubtitleEventView { info: self.info@, project: self.project }
    }
}

impl View for SubtitleEvent {
    type V = SubtitleEventView;

    open spec fn view(&self) -> SubtitleEventView {
        self.deep_view()
    }
}

} // verus!
