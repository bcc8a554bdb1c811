//! Preparing a write: which metadata is asked for, in which order, and what is sent at the end.

use crate::api::client::connection::JiraClient;
use crate::api::client::metadata::epic;
use crate::api::client::metadata::lookup;
use crate::api::client::metadata::lookup::{CreateMetadata, IssueType};
use crate::api::client::metadata::options;
use crate::api::client::metadata::payload;
use crate::api::client::metadata::validation;
use crate::api::client::validate;
use crate::api::types::{Field, IssueDraft, IssueUpdate};
use crate::api::{ApiError, ErrorView};
use crate::json::{Json, JsonMap, JsonView};
use crate::json;
use crate::text;
use vstd::prelude::*;

verus! {

broadcast use vstd::string::group_string_axioms;

/// What the preparation of a write waits for.
#[derive(Debug)]
pub enum PlanStep {
    /// The create metadata of a project for the issue type that an input means.
    Metadata { project: String, input: String },
    /// The edit metadata of the issue.
    EditMetadata,
    /// The change of the issue to another type, as far as it is resolved.
    TypeChange,
    /// The type of the issue that a parent or epic link points to.
    Target(String),
    /// The type of the issue itself.
    OwnType,
    /// The catalog of all fields.
    Catalog,
    /// Nothing more: the fields are what is sent.
    Ready,
}

/// The view of what a preparation waits for.
pub enum PlanView {
    Metadata { project: Seq<char>, input: Seq<char> },
    EditMetadata,
    TypeChange,
    Target(Seq<char>),
    OwnType,
    Catalog,
    Ready,
}

impl View for PlanStep {
    type V = PlanView;

    open spec fn view(&self) -> PlanView {
        match self {
            PlanStep::Metadata { project, input } => PlanView::Metadata {
                project: project@,
                input: input@,
            },
            PlanStep::EditMetadata => PlanView::EditMetadata,
            PlanStep::TypeChange => PlanView::TypeChange,
            PlanStep::Target(key) => PlanView::Target(key@),
            PlanStep::OwnType => PlanView::OwnType,
            PlanStep::Catalog => PlanView::Catalog,
            PlanStep::Ready => PlanView::Ready,
        }
    }
}

/// The view of a step or an error.
pub open spec fn step_view(result: Result<PlanStep, ApiError>) -> Result<PlanView, ErrorView> {
    match result {
        Ok(step) => Ok(step@),
        Err(e) => Err(e@),
    }
}

/// How a preparation ends: with every required field given a value, or refused.
pub open spec fn ended(
    fields: Seq<(Seq<char>, JsonView)>,
    screen: Option<Seq<(Seq<char>, JsonView)>>,
    creating: bool,
) -> Result<PlanView, ErrorView> {
    match screen {
        Some(m) => {
            let missing = validation::missing_fields(fields, m, creating);
            if missing.len() == 0 {
                Ok(PlanView::Ready)
            } else {
                Err(validation::missing_error(missing))
            }
        },
        None => Ok(PlanView::Ready),
    }
}

fn end(fields: &JsonMap, screen: Option<&JsonMap>, creating: bool) -> (result: Result<
    PlanStep,
    ApiError,
>)
    ensures
        step_view(result) == ended(fields@, lookup::map_ref_view(screen), creating),
{
    match validation::validate_required(fields, screen, creating) {
        Ok(()) => Ok(PlanStep::Ready),
        Err(e) => Err(e),
    }
}

/// The step that asks for the type of a linked issue, or the error for a malformed key.
pub open spec fn target_step(key: Seq<char>) -> Result<PlanView, ErrorView> {
    if validate::is_issue_key(key) {
        Ok(PlanView::Target(key))
    } else {
        Err(validate::bad_key(key))
    }
}

fn ask_target(key: &str) -> (result: Result<PlanStep, ApiError>)
    ensures
        step_view(result) == target_step(key@),
{
    match validate::validate_issue_key(key) {
        Ok(()) => Ok(PlanStep::Target(key.to_owned())),
        Err(e) => Err(e),
    }
}

/// The preparation of a new issue.
pub struct CreatePlan<'a> {
    pub client: &'a JiraClient,
    pub draft: &'a IssueDraft<'a>,
    /// Raw `--field` values.
    pub custom: &'a Vec<(String, Json)>,
    /// What is sent, as far as it is known.
    pub fields: JsonMap,
    /// The issue type as it was given.
    pub input: String,
    /// The metadata, once it was asked for.
    pub meta: Option<CreateMetadata>,
    /// The issue type, once the metadata was asked for.
    pub issue_type: Option<IssueType>,
    /// The type of the linked issue, once it is known.
    pub target: Option<IssueType>,
}

/// The fields of the create screen, where they are known.
pub open spec fn screen_of(meta: Option<CreateMetadata>) -> Option<Seq<(Seq<char>, JsonView)>> {
    match meta {
        Some(m) => lookup::map_view(m.fields),
        None => None,
    }
}

fn screen(meta: &Option<CreateMetadata>) -> (result: Option<&JsonMap>)
    ensures
        lookup::map_ref_view(result) == screen_of(*meta),
{
    match meta {
        Some(m) => m.fields.as_ref(),
        None => None,
    }
}

impl<'a> CreatePlan<'a> {
    /// Whether two plans are for the same draft.
    pub open spec fn same_draft(self, other: CreatePlan<'a>) -> bool {
        &&& self.client == other.client
        &&& self.draft == other.draft
        &&& self.custom == other.custom
        &&& self.input == other.input
    }

    /// Begins with what the options say, and asks for the metadata of the project.
    pub fn new(
        client: &'a JiraClient,
        draft: &'a IssueDraft<'a>,
        custom: &'a Vec<(String, Json)>,
    ) -> (result: Result<(CreatePlan<'a>, PlanStep), ApiError>)
        ensures
            ({
                let start = payload::draft_fields(*client, *draft, custom@);
                match payload::create_inputs(start, draft.parent is Some && draft.epic is Some) {
                    Ok((project, input)) => {
                        &&& result matches Ok((plan, step))
                        &&& step@ == (PlanView::Metadata { project, input })
                        &&& plan.client == client
                        &&& plan.draft == draft
                        &&& plan.custom == custom
                        &&& plan.fields@ == start
                        &&& plan.input@ == input
                        &&& plan.meta is None
                        &&& plan.issue_type is None
                        &&& plan.target is None
                    },
                    Err(e) => result matches Err(r) && r@ == e,
                }
            }),
    {
        let fields = client.draft_payload(draft, custom);
        match JiraClient::create_metadata_inputs(&fields, draft) {
            Err(e) => Err(e),
            Ok((project, input)) => {
                let plan = CreatePlan {
                    client,
                    draft,
                    custom,
                    fields,
                    input: input.clone(),
                    meta: None,
                    issue_type: None,
                    target: None,
                };
                Ok((plan, PlanStep::Metadata { project, input }))
            },
        }
    }

    /// Takes the metadata: resolves the type, the priority and the named lists, and asks for
    /// the linked issue where one is named.
    pub fn metadata(&mut self, meta: Option<CreateMetadata>) -> (result: Result<PlanStep, ApiError>)
        ensures
            final(self).same_draft(*old(self)),
            final(self).target is None,
            ({
                let resolved = payload::normalized_create(
                    old(self).fields@,
                    meta,
                    payload::named_priority(old(self).draft.priority, old(self).custom@),
                    old(self).custom@,
                );
                match resolved {
                    Err(e) => step_view(result) == Err::<PlanView, ErrorView>(e),
                    Ok(fields) => {
                        &&& final(self).fields@ == fields
                        &&& final(self).meta == meta
                        &&& final(self).issue_type is Some
                        &&& match meta {
                            Some(m) => final(self).issue_type->0.same_as(m.issue_type),
                            None => payload::fallback_type(
                                final(self).issue_type->0,
                                old(self).input@,
                            ),
                        }
                        &&& step_view(result) == match payload::link_target(*old(self).draft) {
                            Some(key) => target_step(key),
                            None => ended(fields, screen_of(meta), true),
                        }
                    },
                }
            }),
    {
        self.target = None;
        match JiraClient::normalize_create(&mut self.fields, self.draft, self.custom, &meta) {
            Err(e) => {
                return Err(e);
            },
            Ok(()) => {},
        }
        self.issue_type = Some(JiraClient::create_type(&meta, self.input.as_str()));
        self.meta = meta;
        match self.draft.epic {
            Some(key) => ask_target(key),
            None => match self.draft.parent {
                Some(key) => ask_target(key),
                None => end(&self.fields, screen(&self.meta), true),
            },
        }
    }

    /// How the link to an issue of type `target` comes out.
    pub open spec fn linked(self, target: IssueType, catalog: Seq<Field>) -> Result<
        Seq<(Seq<char>, JsonView)>,
        ErrorView,
    > {
        match payload::link_target(*self.draft) {
            Some(key) => payload::linked_create(
                self.client.api_version,
                self.fields@,
                screen_of(self.meta),
                epic::catalog_map(catalog),
                self.issue_type->0,
                self.draft.epic is Some,
                key,
                target,
            ),
            None => Ok(self.fields@),
        }
    }

    /// Whether the catalog of all fields decides how an epic is linked.
    pub open spec fn catalog_decides(self, target: IssueType) -> bool {
        &&& target.epic()
        &&& self.issue_type->0.epic_child()
        &&& screen_of(self.meta) is None
        &&& self.client.api_version < 3
    }

    /// Takes the type of the linked issue.
    pub fn take_target(&mut self, target: IssueType) -> (result: Result<PlanStep, ApiError>)
        requires
            old(self).issue_type is Some,
        ensures
            final(self).same_draft(*old(self)),
            final(self).meta == old(self).meta,
            final(self).issue_type == old(self).issue_type,
            if old(self).catalog_decides(target) {
                &&& step_view(result) == Ok::<PlanView, ErrorView>(PlanView::Catalog)
                &&& final(self).target == Some(target)
                &&& final(self).fields@ == old(self).fields@
            } else {
                match old(self).linked(target, Seq::empty()) {
                    Err(e) => step_view(result) == Err::<PlanView, ErrorView>(e),
                    Ok(fields) => {
                        &&& final(self).fields@ == fields
                        &&& step_view(result) == ended(fields, screen_of(old(self).meta), true)
                    },
                }
            },
    {
        let needs_catalog = match &self.issue_type {
            Some(own) => target.is_epic() && own.can_belong_to_epic()
                && self.client.needs_field_catalog(screen(&self.meta)),
            None => false,
        };
        if needs_catalog {
            self.target = Some(target);
            return Ok(PlanStep::Catalog);
        }
        let none: Vec<Field> = Vec::new();
        assert(none@ =~= Seq::<Field>::empty());
        self.link(&target, &none)
    }

    fn link(&mut self, target: &IssueType, catalog: &Vec<Field>) -> (result: Result<
        PlanStep,
        ApiError,
    >)
        requires
            old(self).issue_type is Some,
        ensures
            final(self).same_draft(*old(self)),
            final(self).meta == old(self).meta,
            final(self).issue_type == old(self).issue_type,
            final(self).target == old(self).target,
            match old(self).linked(*target, catalog@) {
                Err(e) => step_view(result) == Err::<PlanView, ErrorView>(e),
                Ok(fields) => {
                    &&& final(self).fields@ == fields
                    &&& step_view(result) == ended(fields, screen_of(old(self).meta), true)
                },
            },
    {
        if let Some(own) = &self.issue_type {
            match self.client.link_create(
                &mut self.fields,
                screen(&self.meta),
                catalog,
                own,
                self.draft,
                target,
            ) {
                Err(e) => {
                    return Err(e);
                },
                Ok(()) => {},
            }
        }
        end(&self.fields, screen(&self.meta), true)
    }

    /// Takes the catalog of all fields.
    pub fn take_catalog(&mut self, catalog: &Vec<Field>) -> (result: Result<PlanStep, ApiError>)
        requires
            old(self).issue_type is Some,
            old(self).target is Some,
        ensures
            final(self).same_draft(*old(self)),
            final(self).meta == old(self).meta,
            match old(self).linked(old(self).target->0, catalog@) {
                Err(e) => step_view(result) == Err::<PlanView, ErrorView>(e),
                Ok(fields) => {
                    &&& final(self).fields@ == fields
                    &&& step_view(result) == ended(fields, screen_of(old(self).meta), true)
                },
            },
    {
        match self.target.take() {
            Some(target) => self.link(&target, catalog),
            None => Ok(PlanStep::Ready),
        }
    }
}

/// Whether an update names anything that the edit metadata decides on.
pub open spec fn metadata_decides(update: IssueUpdate<'_>, custom: Seq<(String, Json)>) -> bool {
    ||| payload::named_priority(update.priority, custom) is Some
    ||| update.components is Some
    ||| update.fix_versions is Some
    ||| update.issue_type is Some
    ||| update.epic is Some
    ||| update.clear_epic
}

/// The preparation of an update.
pub struct UpdatePlan<'a> {
    pub client: &'a JiraClient,
    pub key: &'a str,
    pub update: &'a IssueUpdate<'a>,
    /// Raw `--field` values.
    pub custom: &'a Vec<(String, Json)>,
    /// What is sent, as far as it is known.
    pub fields: JsonMap,
    /// The fields of the edit screen, where Jira gave them.
    pub meta: Option<JsonMap>,
    /// The type of the issue after the update, once it is known.
    pub own_type: Option<IssueType>,
}

impl<'a> UpdatePlan<'a> {
    /// Whether two plans are for the same update.
    pub open spec fn same_update(self, other: UpdatePlan<'a>) -> bool {
        &&& self.client == other.client
        &&& self.key == other.key
        &&& self.update == other.update
        &&& self.custom == other.custom
    }

    /// Begins with what the options say.
    pub fn new(
        client: &'a JiraClient,
        key: &'a str,
        update: &'a IssueUpdate<'a>,
        custom: &'a Vec<(String, Json)>,
    ) -> (result: Result<(UpdatePlan<'a>, PlanStep), ApiError>)
        ensures
            match result {
                Ok((plan, step)) => {
                    &&& validate::is_issue_key(key@)
                    &&& payload::changes_anything(*client, *update, custom@)
                    &&& plan.client == client
                    &&& plan.key == key
                    &&& plan.update == update
                    &&& plan.custom == custom
                    &&& plan.fields@ == payload::update_fields(*client, *update, custom@)
                    &&& plan.meta is None
                    &&& plan.own_type is None
                    &&& step@ == if metadata_decides(*update, custom@) {
                        PlanView::EditMetadata
                    } else {
                        PlanView::Ready
                    }
                },
                Err(e) => if !validate::is_issue_key(key@) {
                    e@ == validate::bad_key(key@)
                } else {
                    !payload::changes_anything(*client, *update, custom@) && e@
                        == payload::nothing_to_update()
                },
            },
    {
        match client.update_payload(key, update, custom) {
            Err(e) => Err(e),
            Ok(fields) => {
                let named_priority = update.priority.is_some() && !validation::is_given(
                    custom,
                    "priority",
                );
                let step = if named_priority || update.components.is_some()
                    || update.fix_versions.is_some() || update.issue_type.is_some()
                    || update.epic.is_some() || update.clear_epic {
                    PlanStep::EditMetadata
                } else {
                    PlanStep::Ready
                };
                let plan = UpdatePlan {
                    client,
                    key,
                    update,
                    custom,
                    fields,
                    meta: None,
                    own_type: None,
                };
                Ok((plan, step))
            },
        }
    }

    /// How an epic link comes out: set where `value` names an epic, else cleared.
    pub open spec fn epic_written(
        self,
        fields: Seq<(Seq<char>, JsonView)>,
        meta: Option<Seq<(Seq<char>, JsonView)>>,
        catalog: Seq<Field>,
        value: Option<Seq<char>>,
    ) -> Result<Seq<(Seq<char>, JsonView)>, ErrorView> {
        epic::with_epic(
            self.client.api_version,
            fields,
            meta,
            epic::catalog_map(catalog),
            value,
        )
    }

    /// Whether the catalog of all fields decides how an epic is linked.
    pub open spec fn catalog_decides(self, meta: Option<Seq<(Seq<char>, JsonView)>>) -> bool {
        meta is None && self.client.api_version < 3
    }

    /// What follows once the type is settled: the linked issue, the catalog, or the end.
    pub open spec fn next(
        self,
        fields: Seq<(Seq<char>, JsonView)>,
        meta: Option<Seq<(Seq<char>, JsonView)>>,
    ) -> Result<PlanView, ErrorView> {
        match self.update.epic {
            Some(key) => if text::ascii_lower(self.key@) == text::ascii_lower(key@) {
                Err(ErrorView::InvalidInput("An issue cannot be its own epic"@))
            } else {
                target_step(key@)
            },
            None => if !self.update.clear_epic {
                ended(fields, meta, false)
            } else if self.catalog_decides(meta) {
                Ok(PlanView::Catalog)
            } else {
                match self.epic_written(fields, meta, Seq::empty(), None) {
                    Ok(cleared) => ended(cleared, meta, false),
                    Err(e) => Err(e),
                }
            },
        }
    }

    /// The fields once the type is settled.
    pub open spec fn next_fields(
        self,
        fields: Seq<(Seq<char>, JsonView)>,
        meta: Option<Seq<(Seq<char>, JsonView)>>,
    ) -> Seq<(Seq<char>, JsonView)> {
        if self.update.epic is None && self.update.clear_epic && !self.catalog_decides(meta) {
            match self.epic_written(fields, meta, Seq::empty(), None) {
                Ok(cleared) => cleared,
                Err(_) => fields,
            }
        } else {
            fields
        }
    }

    fn go_on(&mut self) -> (result: Result<PlanStep, ApiError>)
        ensures
            final(self).same_update(*old(self)),
            final(self).meta == old(self).meta,
            final(self).own_type == old(self).own_type,
            final(self).fields@ == old(self).next_fields(
                old(self).fields@,
                lookup::map_view(old(self).meta),
            ),
            step_view(result) == old(self).next(
                old(self).fields@,
                lookup::map_view(old(self).meta),
            ),
    {
        match self.update.epic {
            Some(key) => {
                if text::same_ignoring_case(self.key, key) {
                    return Err(
                        ApiError::InvalidInput("An issue cannot be its own epic".to_owned()),
                    );
                }
                return ask_target(key);
            },
            None => {},
        }
        if self.update.clear_epic {
            if self.client.needs_field_catalog(self.meta.as_ref()) {
                return Ok(PlanStep::Catalog);
            }
            let none: Vec<Field> = Vec::new();
            assert(none@ =~= Seq::<Field>::empty());
            match self.client.clear_epic(&mut self.fields, self.meta.as_ref(), &none) {
                Err(e) => {
                    return Err(e);
                },
                Ok(()) => {},
            }
        }
        end(&self.fields, self.meta.as_ref(), false)
    }

    /// The fields with the priority and the named lists resolved.
    pub open spec fn resolved(self, meta: Option<JsonMap>) -> Result<
        Seq<(Seq<char>, JsonView)>,
        ErrorView,
    > {
        let screen = lookup::map_view(meta);
        let ranked = match payload::named_priority(self.update.priority, self.custom@) {
            Some(input) => payload::with_priority(self.fields@, screen, input),
            None => Ok(self.fields@),
        };
        match ranked {
            Err(e) => Err(e),
            Ok(fields) => validation::with_named_arrays(fields, screen, self.custom@),
        }
    }

    /// Takes the edit metadata, where Jira gives it.
    pub fn take_metadata(&mut self, meta: Option<JsonMap>) -> (result: Result<PlanStep, ApiError>)
        ensures
            final(self).same_update(*old(self)),
            final(self).own_type == old(self).own_type,
            match old(self).resolved(meta) {
                Err(e) => step_view(result) == Err::<PlanView, ErrorView>(e),
                Ok(fields) => {
                    &&& final(self).meta == meta
                    &&& if old(self).update.issue_type is Some {
                        &&& step_view(result) == Ok::<PlanView, ErrorView>(PlanView::TypeChange)
                        &&& final(self).fields@ == fields
                    } else {
                        &&& step_view(result) == old(self).next(fields, lookup::map_view(meta))
                        &&& final(self).fields@ == old(self).next_fields(
                            fields,
                            lookup::map_view(meta),
                        )
                    }
                },
            },
    {
        match JiraClient::normalize_update(
            &mut self.fields,
            self.update,
            self.custom,
            meta.as_ref(),
        ) {
            Err(e) => {
                return Err(e);
            },
            Ok(()) => {},
        }
        self.meta = meta;
        if self.update.issue_type.is_some() {
            return Ok(PlanStep::TypeChange);
        }
        self.go_on()
    }

    /// Takes the type that the issue is changed to.
    pub fn take_type(&mut self, target: IssueType) -> (result: Result<PlanStep, ApiError>)
        ensures
            final(self).same_update(*old(self)),
            final(self).meta == old(self).meta,
            final(self).own_type == Some(target),
            ({
                let fields = json::put_entry(
                    old(self).fields@,
                    "issuetype"@,
                    options::by_id(target.id@, target.name@),
                );
                let meta = lookup::map_view(old(self).meta);
                &&& step_view(result) == old(self).next(fields, meta)
                &&& final(self).fields@ == old(self).next_fields(fields, meta)
            }),
    {
        JiraClient::set_type(&mut self.fields, &target);
        self.own_type = Some(target);
        self.go_on()
    }

    /// Takes the type of the issue that is to be the epic.
    pub fn take_target(&mut self, target: &IssueType) -> (result: Result<PlanStep, ApiError>)
        requires
            old(self).update.epic is Some,
            text::ascii_lower(old(self).key@) != text::ascii_lower(old(self).update.epic->0@),
        ensures
            final(self).same_update(*old(self)),
            final(self).meta == old(self).meta,
            final(self).own_type == old(self).own_type,
            if !target.epic() {
                &&& final(self).fields@ == old(self).fields@
                &&& step_view(result) == Err::<PlanView, ErrorView>(
                    payload::not_an_epic(old(self).update.epic->0@, target.name@),
                )
            } else {
                match old(self).own_type {
                    None => {
                        &&& final(self).fields@ == old(self).fields@
                        &&& step_view(result) == Ok::<PlanView, ErrorView>(PlanView::OwnType)
                    },
                    Some(own) => {
                        &&& step_view(result) == old(self).link_step(own)
                        &&& final(self).fields@ == old(self).link_fields(own)
                    },
                }
            },
    {
        if let Some(key) = self.update.epic {
            match JiraClient::check_epic_target(self.key, key, target) {
                Err(e) => {
                    return Err(e);
                },
                Ok(()) => {},
            }
        }
        if self.own_type.is_none() {
            return Ok(PlanStep::OwnType);
        }
        self.link()
    }

    /// What linking an issue of a type to its epic asks for or comes to.
    pub open spec fn link_step(self, own: IssueType) -> Result<PlanView, ErrorView> {
        if !own.epic_child() {
            Err(epic::no_epic_child(own.name@, self.update.epic->0@))
        } else if self.catalog_decides(lookup::map_view(self.meta)) {
            Ok(PlanView::Catalog)
        } else {
            match self.epic_written(
                self.fields@,
                lookup::map_view(self.meta),
                Seq::empty(),
                Some(self.update.epic->0@),
            ) {
                Ok(fields) => ended(fields, lookup::map_view(self.meta), false),
                Err(e) => Err(e),
            }
        }
    }

    /// The fields that linking an issue of a type to its epic comes to.
    pub open spec fn link_fields(self, own: IssueType) -> Seq<(Seq<char>, JsonView)> {
        if own.epic_child() && !self.catalog_decides(lookup::map_view(self.meta)) {
            match self.epic_written(
                self.fields@,
                lookup::map_view(self.meta),
                Seq::empty(),
                Some(self.update.epic->0@),
            ) {
                Ok(fields) => fields,
                Err(_) => self.fields@,
            }
        } else {
            self.fields@
        }
    }

    fn link(&mut self) -> (result: Result<PlanStep, ApiError>)
        requires
            old(self).update.epic is Some,
            old(self).own_type is Some,
        ensures
            final(self).same_update(*old(self)),
            final(self).meta == old(self).meta,
            final(self).own_type == old(self).own_type,
            final(self).fields@ == old(self).link_fields(old(self).own_type->0),
            step_view(result) == old(self).link_step(old(self).own_type->0),
    {
        let fits = match &self.own_type {
            Some(own) => own.can_belong_to_epic(),
            None => false,
        };
        if fits && self.client.needs_field_catalog(self.meta.as_ref()) {
            return Ok(PlanStep::Catalog);
        }
        let none: Vec<Field> = Vec::new();
        assert(none@ =~= Seq::<Field>::empty());
        self.write_link(&none)
    }

    /// Takes the type of the issue itself.
    pub fn take_own_type(&mut self, own: IssueType) -> (result: Result<PlanStep, ApiError>)
        requires
            old(self).update.epic is Some,
        ensures
            final(self).same_update(*old(self)),
            final(self).meta == old(self).meta,
            final(self).own_type == Some(own),
            final(self).fields@ == old(self).link_fields(own),
            step_view(result) == old(self).link_step(own),
    {
        self.own_type = Some(own);
        self.link()
    }

    fn write_link(&mut self, catalog: &Vec<Field>) -> (result: Result<PlanStep, ApiError>)
        requires
            old(self).update.epic is Some,
            old(self).own_type is Some,
        ensures
            final(self).same_update(*old(self)),
            final(self).meta == old(self).meta,
            final(self).own_type == old(self).own_type,
            ({
                let own = old(self).own_type->0;
                let wanted = if own.epic_child() {
                    old(self).epic_written(
                        old(self).fields@,
                        lookup::map_view(old(self).meta),
                        catalog@,
                        Some(old(self).update.epic->0@),
                    )
                } else {
                    Err(epic::no_epic_child(own.name@, old(self).update.epic->0@))
                };
                match wanted {
                    Ok(fields) => {
                        &&& final(self).fields@ == fields
                        &&& step_view(result) == ended(fields, lookup::map_view(old(self).meta), false)
                    },
                    Err(e) => {
                        &&& final(self).fields@ == old(self).fields@
                        &&& step_view(result) == Err::<PlanView, ErrorView>(e)
                    },
                }
            }),
    {
        match (self.update.epic, &self.own_type) {
            (Some(key), Some(own)) => {
                match self.client.set_epic(
                    &mut self.fields,
                    self.meta.as_ref(),
                    catalog,
                    own,
                    key,
                ) {
                    Err(e) => {
                        return Err(e);
                    },
                    Ok(()) => {},
                }
            },
            _ => {},
        }
        end(&self.fields, self.meta.as_ref(), false)
    }

    /// Takes the catalog of all fields.
    pub fn take_catalog(&mut self, catalog: &Vec<Field>) -> (result: Result<PlanStep, ApiError>)
        requires
            old(self).update.epic is Some ==> old(self).own_type is Some
                && old(self).own_type->0.epic_child(),
        ensures
            final(self).same_update(*old(self)),
            final(self).meta == old(self).meta,
            ({
                let value = match old(self).update.epic {
                    Some(key) => Some(key@),
                    None => None,
                };
                match old(self).epic_written(
                    old(self).fields@,
                    lookup::map_view(old(self).meta),
                    catalog@,
                    value,
                ) {
                    Ok(fields) => {
                        &&& final(self).fields@ == fields
                        &&& step_view(result) == ended(fields, lookup::map_view(old(self).meta), false)
                    },
                    Err(e) => {
                        &&& final(self).fields@ == old(self).fields@
                        &&& step_view(result) == Err::<PlanView, ErrorView>(e)
                    },
                }
            }),
    {
        if self.update.epic.is_some() {
            return self.write_link(catalog);
        }
        match self.client.clear_epic(&mut self.fields, self.meta.as_ref(), catalog) {
            Err(e) => {
                return Err(e);
            },
            Ok(()) => {},
        }
        end(&self.fields, self.meta.as_ref(), false)
    }
}

impl<'a> CreatePlan<'a> {
    /// The project that a preview has to confirm: without metadata nothing has shown that it
    /// exists.
    pub fn unconfirmed_project(&self) -> (result: Option<String>)
        ensures
            json::opt_view(result) == if self.meta is Some {
                None
            } else {
                payload::either_text(JsonView::Object(self.fields@).field("project"@), "key"@, "id"@)
            },
    {
        if self.meta.is_some() {
            None
        } else {
            payload::read_either(&self.fields, "project", "key", "id")
        }
    }

    /// What the create would send.
    pub fn preview(&self) -> (result: Json)
        ensures
            result@ == payload::preview(
                self.fields@,
                Some(self.meta is Some),
                screen_of(self.meta) is Some,
            ),
    {
        let screen = match &self.meta {
            Some(meta) => meta.fields.is_some(),
            None => false,
        };
        payload::write_preview(self.fields.copy(), Some(self.meta.is_some()), screen)
    }
}

impl<'a> UpdatePlan<'a> {
    /// Whether a preview has to confirm the issue: without metadata nothing has shown that it
    /// exists.
    pub fn is_unconfirmed(&self) -> (result: bool)
        ensures
            result == (self.meta is None),
    {
        self.meta.is_none()
    }

    /// What the update would send.
    pub fn preview(&self) -> (result: Json)
        ensures
            result@ == payload::preview(self.fields@, None, self.meta is Some),
    {
        payload::write_preview(self.fields.copy(), None, self.meta.is_some())
    }
}

} // verus!
