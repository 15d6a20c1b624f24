//! Records as the upstream catalogue delivers them. Every field the
//! upstream may omit is an `Option`; nothing here is defaulted or checked.

use vstd::prelude::*;

verus! {

/// The two spellings of a person's name.
#[derive(Debug)]
pub struct PersonName {
    pub full: Option<String>,
    pub native: Option<String>,
}

/// Mathematical model of a [`PersonName`].
pub struct PersonNameView {
    pub full: Option<Seq<char>>,
    pub native: Option<Seq<char>>,
}

impl View for PersonName {
    type V = PersonNameView;

    open spec fn view(&self) -> PersonNameView {
        PersonNameView { full: self.full.deep_view(), native: self.native.deep_view() }
    }
}

impl DeepView for PersonName {
    type V = PersonNameView;

    open spec fn deep_view(&self) -> PersonNameView {
        self@
    }
}

/// The subject of a feed.
#[derive(Debug)]
pub struct Creator {
    pub name: Option<PersonName>,
    pub site_url: Option<String>,
    pub image: Option<String>,
    pub description: Option<String>,
}

/// Mathematical model of a [`Creator`].
pub struct CreatorView {
    pub name: Option<PersonNameView>,
    pub site_url: Option<Seq<char>>,
    pub image: Option<Seq<char>>,
    pub description: Option<Seq<char>>,
}

impl View for Creator {
    type V = CreatorView;

    open spec fn view(&self) -> CreatorView {
        CreatorView {
            name: self.name.deep_view(),
            site_url: self.site_url.deep_view(),
            image: self.image.deep_view(),
            description: self.description.deep_view(),
        }
    }
}

impl DeepView for Creator {
    type V = CreatorView;

    open spec fn deep_view(&self) -> CreatorView {
        self@
    }
}

/// The titles a work is known under.
#[derive(Debug)]
pub struct WorkTitle {
    pub native: Option<String>,
    pub romaji: Option<String>,
    pub english: Option<String>,
}

/// Mathematical model of a [`WorkTitle`].
pub struct WorkTitleView {
    pub native: Option<Seq<char>>,
    pub romaji: Option<Seq<char>>,
    pub english: Option<Seq<char>>,
}

impl View for WorkTitle {
    type V = WorkTitleView;

    open spec fn view(&self) -> WorkTitleView {
        WorkTitleView {
            native: self.native.deep_view(),
            romaji: self.romaji.deep_view(),
            english: self.english.deep_view(),
        }
    }
}

impl DeepView for WorkTitle {
    type V = WorkTitleView;

    open spec fn deep_view(&self) -> WorkTitleView {
        self@
    }
}

/// A release date of which any component may be unknown.
#[derive(Clone, Copy, Debug)]
pub struct PartialDate {
    pub year: Option<i64>,
    pub month: Option<i64>,
    pub day: Option<i64>,
}

impl PartialDate {
    /// Whether at least one component is known.
    pub open spec fn has_any_component(self) -> bool {
        self.year is Some || self.month is Some || self.day is Some
    }

    /// Whether all three components are known.
    pub open spec fn is_complete(self) -> bool {
        self.year is Some && self.month is Some && self.day is Some
    }
}

impl View for PartialDate {
    type V = PartialDate;

    open spec fn view(&self) -> PartialDate {
        *self
    }
}

impl DeepView for PartialDate {
    type V = PartialDate;

    open spec fn deep_view(&self) -> PartialDate {
        *self
    }
}

/// One item of a creator's output.
#[derive(Debug)]
pub struct Work {
    pub title: Option<WorkTitle>,
    pub site_url: Option<String>,
    pub description: Option<String>,
    pub start_date: Option<PartialDate>,
}

/// Mathematical model of a [`Work`].
pub struct WorkView {
    pub title: Option<WorkTitleView>,
    pub site_url: Option<Seq<char>>,
    pub description: Option<Seq<char>>,
    pub start_date: Option<PartialDate>,
}

impl WorkView {
    /// Whether the work names at least one component of its release date.
    pub open spec fn has_any_date_component(self) -> bool {
        self.start_date matches Some(date) && date.has_any_component()
    }
}

impl View for Work {
    type V = WorkView;

    open spec fn view(&self) -> WorkView {
        WorkView {
            title: self.title.deep_view(),
            site_url: self.site_url.deep_view(),
            description: self.description.deep_view(),
            start_date: self.start_date,
        }
    }
}

impl DeepView for Work {
    type V = WorkView;

    open spec fn deep_view(&self) -> WorkView {
        self@
    }
}

/// The creator's credited function on one work.
#[derive(Debug)]
pub struct Role {
    pub label: Option<String>,
}

/// Mathematical model of a [`Role`].
pub struct RoleView {
    pub label: Option<Seq<char>>,
}

impl View for Role {
    type V = RoleView;

    open spec fn view(&self) -> RoleView {
        RoleView { label: self.label.deep_view() }
    }
}

impl DeepView for Role {
    type V = RoleView;

    open spec fn deep_view(&self) -> RoleView {
        self@
    }
}

/// One page of a creator's credits: the roles and the works, index-aligned.
#[derive(Debug)]
pub struct StaffMedia {
    pub roles: Option<Vec<Option<Role>>>,
    pub works: Option<Vec<Option<Work>>>,
}

/// Mathematical model of a [`StaffMedia`].
pub struct StaffMediaView {
    pub roles: Option<Seq<Option<RoleView>>>,
    pub works: Option<Seq<Option<WorkView>>>,
}

impl View for StaffMedia {
    type V = StaffMediaView;

    open spec fn view(&self) -> StaffMediaView {
        StaffMediaView { roles: self.roles.deep_view(), works: self.works.deep_view() }
    }
}

impl DeepView for StaffMedia {
    type V = StaffMediaView;

    open spec fn deep_view(&self) -> StaffMediaView {
        self@
    }
}

/// A creator together with one page of credits.
#[derive(Debug)]
pub struct Staff {
    pub creator: Creator,
    pub media: Option<StaffMedia>,
}

/// Mathematical model of a [`Staff`].
pub struct StaffView {
    pub creator: CreatorView,
    pub media: Option<StaffMediaView>,
}

impl View for Staff {
    type V = StaffView;

    open spec fn view(&self) -> StaffView {
        StaffView { creator: self.creator@, media: self.media.deep_view() }
    }
}

impl DeepView for Staff {
    type V = StaffView;

    open spec fn deep_view(&self) -> StaffView {
        self@
    }
}

/// The payload of one successful page fetch.
#[derive(Debug)]
pub struct StaffPage {
    pub staff: Option<Staff>,
}

/// Mathematical model of a [`StaffPage`].
pub struct StaffPageView {
    pub staff: Option<StaffView>,
}

impl View for StaffPage {
    type V = StaffPageView;

    open spec fn view(&self) -> StaffPageView {
        StaffPageView { staff: self.staff.deep_view() }
    }
}

impl DeepView for StaffPage {
    type V = StaffPageView;

    open spec fn deep_view(&self) -> StaffPageView {
        self@
    }
}

} // verus!
