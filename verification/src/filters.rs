//! Which stored projects a query asks for, and the builder that assembles it.
use crate::state::State;
use vstd::prelude::*;

verus! {

/// Conditions on stored projects; an absent condition lets every project through.
#[derive(Debug)]
pub struct ProjectFilter<'a> {
    pub state: Option<&'a State>,
    pub uuid: Option<&'a u128>,
    pub id: Option<&'a u32>,
    pub name: Option<&'a String>,
}

impl<'a> ProjectFilter<'a> {
    /// No condition at all.
    pub open spec fn is_empty(&self) -> bool {
        &&& self.state is None
        &&& self.uuid is None
        &&& self.id is None
        &&& self.name is None
    }

    /// A builder that starts with no condition.
    pub fn builder() -> (b: FilterBuilder<'a>)
        ensures
            b.spec_filter().is_empty(),
    {
        FilterBuilder::new()
    }
}

impl<'a> Default for ProjectFilter<'a> {
    fn default() -> (f: ProjectFilter<'a>)
        ensures
            f.is_empty(),
    {
        ProjectFilter { state: None, uuid: None, id: None, name: None }
    }
}

/// Assembles a [`ProjectFilter`] one condition at a time; a later call for
/// the same condition replaces the earlier one.
pub struct FilterBuilder<'a> {
    filter: ProjectFilter<'a>,
}

impl<'a> FilterBuilder<'a> {
    /// The filter assembled so far.
    pub closed spec fn spec_filter(&self) -> ProjectFilter<'a> {
        self.filter
    }

    /// A builder with no condition.
    pub fn new() -> (b: FilterBuilder<'a>)
        ensures
            b.spec_filter().is_empty(),
    {
        FilterBuilder { filter: ProjectFilter::default() }
    }

    /// Asks for projects in `state`.
    pub fn state(self, state: &'a State) -> (b: FilterBuilder<'a>)
        ensures
            b.spec_filter() == set_field(self.spec_filter(), FilterSetting::State(state)),
    {
        let mut b = self;
        b.filter.state = Some(state);
        b
    }

    /// Asks for the project with identifier `uuid`.
    pub fn uuid(self, uuid: &'a u128) -> (b: FilterBuilder<'a>)
        ensures
            b.spec_filter() == set_field(self.spec_filter(), FilterSetting::Uuid(uuid)),
    {
        let mut b = self;
        b.filter.uuid = Some(uuid);
        b
    }

    /// Asks for the project with working-set number `id`.
    pub fn id(self, id: &'a u32) -> (b: FilterBuilder<'a>)
        ensures
            b.spec_filter() == set_field(self.spec_filter(), FilterSetting::Id(id)),
    {
        let mut b = self;
        b.filter.id = Some(id);
        b
    }

    /// Asks for projects whose name contains `name`.
    pub fn name(self, name: &'a String) -> (b: FilterBuilder<'a>)
        ensures
            b.spec_filter() == set_field(self.spec_filter(), FilterSetting::Name(name)),
    {
        let mut b = self;
        b.filter.name = Some(name);
        b
    }

    /// The filter assembled.
    pub fn build(self) -> (f: ProjectFilter<'a>)
        ensures
            f == self.spec_filter(),
    {
        self.filter
    }
}

/// One setter call of a [`FilterBuilder`], with its argument.
pub enum FilterSetting<'a> {
    State(&'a State),
    Uuid(&'a u128),
    Id(&'a u32),
    Name(&'a String),
}

/// The filter after one setter call: the call's field is replaced, the others kept.
/// Each setter of [`FilterBuilder`] does exactly this to the filter it holds.
pub open spec fn set_field<'a>(f: ProjectFilter<'a>, c: FilterSetting<'a>) -> ProjectFilter<'a> {
    match c {
        FilterSetting::State(s) => ProjectFilter { state: Some(s), ..f },
        FilterSetting::Uuid(u) => ProjectFilter { uuid: Some(u), ..f },
        FilterSetting::Id(i) => ProjectFilter { id: Some(i), ..f },
        FilterSetting::Name(n) => ProjectFilter { name: Some(n), ..f },
    }
}

/// The filter after a sequence of setter calls, in order.
pub open spec fn apply_settings<'a>(f: ProjectFilter<'a>, calls: Seq<FilterSetting<'a>>) -> ProjectFilter<'a>
    decreases calls.len(),
{
    if calls.len() == 0 {
        f
    } else {
        set_field(apply_settings(f, calls.drop_last()), calls.last())
    }
}

/// The argument of the last state setter among the calls, if any.
pub open spec fn last_state<'a>(calls: Seq<FilterSetting<'a>>) -> Option<&'a State>
    decreases calls.len(),
{
    if calls.len() == 0 {
        None
    } else if let FilterSetting::State(s) = calls.last() {
        Some(s)
    } else {
        last_state(calls.drop_last())
    }
}

/// The argument of the last identifier setter among the calls, if any.
pub open spec fn last_uuid<'a>(calls: Seq<FilterSetting<'a>>) -> Option<&'a u128>
    decreases calls.len(),
{
    if calls.len() == 0 {
        None
    } else if let FilterSetting::Uuid(u) = calls.last() {
        Some(u)
    } else {
        last_uuid(calls.drop_last())
    }
}

/// The argument of the last number setter among the calls, if any.
pub open spec fn last_id<'a>(calls: Seq<FilterSetting<'a>>) -> Option<&'a u32>
    decreases calls.len(),
{
    if calls.len() == 0 {
        None
    } else if let FilterSetting::Id(i) = calls.last() {
        Some(i)
    } else {
        last_id(calls.drop_last())
    }
}

/// The argument of the last name setter among the calls, if any.
pub open spec fn last_name<'a>(calls: Seq<FilterSetting<'a>>) -> Option<&'a String>
    decreases calls.len(),
{
    if calls.len() == 0 {
        None
    } else if let FilterSetting::Name(n) = calls.last() {
        Some(n)
    } else {
        last_name(calls.drop_last())
    }
}

/// Building from an empty filter with any sequence of setter calls gives,
/// for each field, the argument of the last call of that field's setter, and
/// nothing for a field whose setter was never called.
pub proof fn lemma_builder_sequence<'a>(calls: Seq<FilterSetting<'a>>)
    ensures
        apply_settings(ProjectFilter { state: None, uuid: None, id: None, name: None }, calls).state
            == last_state(calls),
        apply_settings(ProjectFilter { state: None, uuid: None, id: None, name: None }, calls).uuid
            == last_uuid(calls),
        apply_settings(ProjectFilter { state: None, uuid: None, id: None, name: None }, calls).id
            == last_id(calls),
        apply_settings(ProjectFilter { state: None, uuid: None, id: None, name: None }, calls).name
            == last_name(calls),
    decreases calls.len(),
{
    if calls.len() > 0 {
        lemma_builder_sequence(calls.drop_last());
    }
}

/// Setters of different fields commute.
pub proof fn lemma_setters_commute<'a>(f: ProjectFilter<'a>, a: FilterSetting<'a>, b: FilterSetting<'a>)
    requires
        !(a is State && b is State),
        !(a is Uuid && b is Uuid),
        !(a is Id && b is Id),
        !(a is Name && b is Name),
    ensures
        set_field(set_field(f, a), b) == set_field(set_field(f, b), a),
{
}

} // verus!
