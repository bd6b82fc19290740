//! The resource of a `build.complete` event.

use vstd::prelude::*;
use crate::error::{agrees, Error};
use crate::ident::Uuid;
use crate::json::{find, get_named, Json, JsonValue};
use crate::time::Timestamp;
use crate::web::Url;

verus! {

/// A navigational link.
#[derive(Clone, Debug, PartialEq, Eq)]
pub struct Link {
    pub href: Url,
}

/// The model of a [`Link`].
pub struct LinkView {
    pub href: Seq<char>,
}

impl DeepView for Link {
    type V = LinkView;

    open spec fn deep_view(&self) -> LinkView {
        LinkView { href: self.href@ }
    }
}

impl View for Link {
    type V = LinkView;

    open spec fn view(&self) -> LinkView {
        self.deep_view()
    }
}

/// The fields that describe one run of a build pipeline.
#[derive(Clone, Debug, PartialEq, Eq)]
pub struct Build {
    /// Tags associated with the run.
    pub tags: Vec<String>,
    /// Input parameters of the run's template, by name.
    pub template_parameters: Vec<(String, Json)>,
    /// The run number.
    pub id: u64,
    /// The API URL for further information about the run.
    pub url: Url,
    /// The human build number, such as "20221202.1".
    pub build_number: String,
    /// The status, such as "completed".
    pub status: String,
    /// The result, such as "succeeded".
    pub result: String,
    /// When the run was requested.
    pub queue_time: Timestamp,
    /// When the run started.
    pub start_time: Timestamp,
    /// When the run finished.
    pub finish_time: Timestamp,
    /// Why the run was started, such as "manual".
    pub reason: String,
}

/// The model of a [`Build`].
pub struct BuildView {
    pub tags: Seq<Seq<char>>,
    pub template_parameters: Seq<(Seq<char>, JsonValue)>,
    pub id: u64,
    pub url: Seq<char>,
    pub build_number: Seq<char>,
    pub status: Seq<char>,
    pub result: Seq<char>,
    pub queue_time: Seq<char>,
    pub start_time: Seq<char>,
    pub finish_time: Seq<char>,
    pub reason: Seq<char>,
}

impl DeepView for Build {
    type V = BuildView;

    open spec fn deep_view(&self) -> BuildView {
        BuildView {
            tags: self.tags.deep_view(),
            template_parameters: self.template_parameters.deep_view(),
            id: self.id,
            url: self.url@,
            build_number: self.build_number@,
            status: self.status@,
            result: self.result@,
            queue_time: self.queue_time@,
            start_time: self.start_time@,
            finish_time: self.finish_time@,
            reason: self.reason@,
        }
    }
}

impl View for Build {
    type V = BuildView;

    open spec fn view(&self) -> BuildView {
        self.deep_view()
    }
}

/// The resource of a `build.complete` event: the run and its links.
#[derive(Clone, Debug, PartialEq, Eq)]
pub struct BuildComplete {
    /// Navigational links by name, such as "web".
    pub links: Vec<(String, Link)>,
    /// The fields that describe the run.
    pub info: Build,
}

/// The model of a [`BuildComplete`].
pub struct BuildCompleteView {
    pub links: Seq<(Seq<char>, LinkView)>,
    pub info: BuildView,
}

impl DeepView for BuildComplete {
    type V = BuildCompleteView;

    open spec fn deep_view(&self) -> BuildCompleteView {
        BuildCompleteView { links: self.links.deep_view(), info: self.info.deep_view() }
    }
}

impl View for BuildComplete {
    type V = BuildCompleteView;

    open spec fn view(&self) -> BuildCompleteView {
        self.deep_view()
    }
}

/// What a pipeline definition says of the project it belongs to.
#[derive(Clone, Debug, PartialEq, Eq)]
pub struct ProjectFragment {
    pub id: Uuid,
    pub name: String,
    pub description: String,
    pub url: String,
    pub state: String,
    pub revision: u64,
    pub visibility: String,
    pub last_update_time: Timestamp,
}

/// The model of a [`ProjectFragment`].
pub struct ProjectFragmentView {
    pub id: u128,
    pub name: Seq<char>,
    pub description: Seq<char>,
    pub url: Seq<char>,
    pub state: Seq<char>,
    pub revision: u64,
    pub visibility: Seq<char>,
    pub last_update_time: Seq<char>,
}

impl DeepView for ProjectFragment {
    type V = ProjectFragmentView;

    open spec fn deep_view(&self) -> ProjectFragmentView {
        ProjectFragmentView {
            id: self.id.bits,
            name: self.name@,
            description: self.description@,
            url: self.url@,
            state: self.state@,
            revision: self.revision,
            visibility: self.visibility@,
            last_update_time: self.last_update_time@,
        }
    }
}

impl View for ProjectFragment {
    type V = ProjectFragmentView;

    open spec fn view(&self) -> ProjectFragmentView {
        self.deep_view()
    }
}

/// What a run says of the pipeline definition it is a run of.
#[derive(Clone, Debug, PartialEq, Eq)]
pub struct DefinitionFragment {
    pub id: u64,
    pub name: String,
    /// The API URL for more information about the definition.
    pub url: Url,
    pub uri: String,
    /// The folder path of the definition.
    pub path: String,
    /// The member `type`.
    pub typ_: String,
    pub queue_status: String,
    pub revision: u64,
    pub project: ProjectFragment,
}

/// The model of a [`DefinitionFragment`].
pub struct DefinitionFragmentView {
    pub id: u64,
    pub name: Seq<char>,
    pub url: Seq<char>,
    pub uri: Seq<char>,
    pub path: Seq<char>,
    pub typ_: Seq<char>,
    pub queue_status: Seq<char>,
    pub revision: u64,
    pub project: ProjectFragmentView,
}

impl DeepView for DefinitionFragment {
    type V = DefinitionFragmentView;

    open spec fn deep_view(&self) -> DefinitionFragmentView {
        DefinitionFragmentView {
            id: self.id,
            name: self.name@,
            url: self.url@,
            uri: self.uri@,
            path: self.path@,
            typ_: self.typ_@,
            queue_status: self.queue_status@,
            revision: self.revision,
            project: self.project.deep_view(),
        }
    }
}

impl View for DefinitionFragment {
    type V = DefinitionFragmentView;

    open spec fn view(&self) -> DefinitionFragmentView {
        self.deep_view()
    }
}

/// The project that a document describes: every field must be there and
/// have the shape of its type.
pub open spec fn project_of(document: JsonValue) -> Option<ProjectFragmentView> {
    match (
        document.required_uuid("id"@),
        document.required_text("name"@),
        document.required_text("description"@),
        document.required_text("url"@),
        document.required_text("state"@),
        document.required_unsigned("revision"@),
        document.required_text("visibility"@),
        document.required_time("lastUpdateTime"@),
    ) {
        (
            Some(id),
            Some(name),
            Some(description),
            Some(url),
            Some(state),
            Some(revision),
            Some(visibility),
            Some(last_update_time),
        ) => Some(
            ProjectFragmentView {
                id,
                name,
                description,
                url,
                state,
                revision,
                visibility,
                last_update_time,
            },
        ),
        _ => None,
    }
}

/// The project in the member `project`, which must be there.
pub open spec fn project_member(document: JsonValue) -> Option<ProjectFragmentView> {
    match document.present("project"@) {
        None => None,
        Some(project) => project_of(project),
    }
}

/// The pipeline definition that a document describes: every field must be
/// there and have the shape of its type.
pub open spec fn definition_of(document: JsonValue) -> Option<DefinitionFragmentView> {
    match (
        document.required_unsigned("id"@),
        document.required_text("name"@),
        document.required_url("url"@),
        document.required_text("uri"@),
        document.required_text("path"@),
        document.required_text("type"@),
        document.required_text("queueStatus"@),
        document.required_unsigned("revision"@),
        project_member(document),
    ) {
        (
            Some(id),
            Some(name),
            Some(url),
            Some(uri),
            Some(path),
            Some(typ_),
            Some(queue_status),
            Some(revision),
            Some(project),
        ) => Some(
            DefinitionFragmentView { id, name, url, uri, path, typ_, queue_status, revision, project },
        ),
        _ => None,
    }
}

impl ProjectFragment {
    /// Decodes what a definition says of its project.
    pub fn decode(document: &Json) -> (project: Result<ProjectFragment, Error>)
        ensures
            agrees(project, project_of(document@)),
    {
        let id = document.required_uuid("id")?;
        let name = document.required_text("name")?;
        let description = document.required_text("description")?;
        let url = document.required_text("url")?;
        let state = document.required_text("state")?;
        let revision = document.required_unsigned("revision")?;
        let visibility = document.required_text("visibility")?;
        let last_update_time = document.required_time("lastUpdateTime")?;
        Ok(
            ProjectFragment {
                id,
                name,
                description,
                url,
                state,
                revision,
                visibility,
                last_update_time,
            },
        )
    }
}

impl DefinitionFragment {
    /// Decodes what a run says of its pipeline definition.
    pub fn decode(document: &Json) -> (definition: Result<DefinitionFragment, Error>)
        ensures
            agrees(definition, definition_of(document@)),
    {
        let id = document.required_unsigned("id")?;
        let name = document.required_text("name")?;
        let url = document.required_url("url")?;
        let uri = document.required_text("uri")?;
        let path = document.required_text("path")?;
        let typ_ = document.required_text("type")?;
        let queue_status = document.required_text("queueStatus")?;
        let revision = document.required_unsigned("revision")?;
        let project = match document.get_present("project") {
            None => {
                return Err(Error::MalformedPayload);
            },
            Some(project) => ProjectFragment::decode(project)?,
        };
        Ok(DefinitionFragment { id, name, url, uri, path, typ_, queue_status, revision, project })
    }
}

/// The link that a document stands for: an object whose `href` is a URL.
pub open spec fn link_of(document: JsonValue) -> Option<LinkView> {
    match document.required_url("href"@) {
        Some(href) => Some(LinkView { href }),
        None => None,
    }
}

/// The links that a document stands for: an object each of whose members is
/// a link.
pub open spec fn links_of(document: JsonValue) -> Option<Seq<(Seq<char>, LinkView)>> {
    match document {
        JsonValue::Object(members) => if forall|i: int|
            0 <= i < members.len() ==> link_of(#[trigger] members[i].1) is Some {
            Some(Seq::new(members.len(), |i: int| (members[i].0, link_of(members[i].1).unwrap())))
        } else {
            None
        },
        _ => None,
    }
}

/// The tag list that a document stands for: an array of strings.
pub open spec fn tags_of(document: JsonValue) -> Option<Seq<Seq<char>>> {
    match document {
        JsonValue::Array(items) => if forall|i: int|
            0 <= i < items.len() ==> (#[trigger] items[i]).text() is Some {
            Some(Seq::new(items.len(), |i: int| items[i].text().unwrap()))
        } else {
            None
        },
        _ => None,
    }
}

/// The parameters that a document stands for: the members of an object, as
/// they are.
pub open spec fn parameters_of(document: JsonValue) -> Option<Seq<(Seq<char>, JsonValue)>> {
    match document {
        JsonValue::Object(members) => Some(members),
        _ => None,
    }
}

/// The tag list of a run: none where the member is missing.
pub open spec fn tags_member(document: JsonValue) -> Option<Seq<Seq<char>>> {
    match document.member("tags"@) {
        None => Some(Seq::empty()),
        Some(tags) => tags_of(tags),
    }
}

/// The parameters of a run: none where the member is missing.
pub open spec fn parameters_member(document: JsonValue) -> Option<Seq<(Seq<char>, JsonValue)>> {
    match document.member("templateParameters"@) {
        None => Some(Seq::empty()),
        Some(parameters) => parameters_of(parameters),
    }
}

/// The run that a document describes. The tag list and the parameters may be
/// missing; every other field must be there and have the shape of its type.
pub open spec fn build_of(document: JsonValue) -> Option<BuildView> {
    match (
        tags_member(document),
        parameters_member(document),
        document.required_unsigned("id"@),
        document.required_url("url"@),
        document.required_text("buildNumber"@),
        document.required_text("status"@),
        document.required_text("result"@),
        document.required_time("queueTime"@),
        document.required_time("startTime"@),
        document.required_time("finishTime"@),
        document.required_text("reason"@),
    ) {
        (
            Some(tags),
            Some(template_parameters),
            Some(id),
            Some(url),
            Some(build_number),
            Some(status),
            Some(result),
            Some(queue_time),
            Some(start_time),
            Some(finish_time),
            Some(reason),
        ) => Some(
            BuildView {
                tags,
                template_parameters,
                id,
                url,
                build_number,
                status,
                result,
                queue_time,
                start_time,
                finish_time,
                reason,
            },
        ),
        _ => None,
    }
}

/// The links of a resource: the member `_links`, which must be there.
pub open spec fn links_member(document: JsonValue) -> Option<Seq<(Seq<char>, LinkView)>> {
    match document.present("_links"@) {
        None => None,
        Some(links) => links_of(links),
    }
}

/// The build-completion resource that a document stands for: its links, and
/// beside them the fields of the run. Members that are not named here are
/// passed over.
pub open spec fn build_complete_of(document: JsonValue) -> Option<BuildCompleteView> {
    match (links_member(document), build_of(document)) {
        (Some(links), Some(info)) => Some(BuildCompleteView { links, info }),
        _ => None,
    }
}

impl Link {
    /// Decodes a link.
    pub fn decode(document: &Json) -> (link: Result<Link, Error>)
        ensures
            agrees(link, link_of(document@)),
    {
        match document.required_url("href") {
            Ok(href) => Ok(Link { href }),
            Err(error) => Err(error),
        }
    }
}

/// Decodes a set of links by name.
pub fn decode_links(document: &Json) -> (links: Result<Vec<(String, Link)>, Error>)
    ensures
        agrees(links, links_of(document@)),
{
    match document {
        Json::Object(members) => {
            let ghost model = crate::json::members_view(members@);
            let mut links: Vec<(String, Link)> = Vec::new();
            let mut i: usize = 0;
            while i < members.len()
                invariant
                    i <= members.len(),
                    links.len() == i,
                    model == crate::json::members_view(members@),
                    document@ == JsonValue::Object(model),
                    forall|k: int| 0 <= k < i ==> link_of(#[trigger] model[k].1) is Some,
                    forall|k: int|
                        0 <= k < i ==> (#[trigger] links@[k]).deep_view() == (
                            model[k].0,
                            link_of(model[k].1).unwrap(),
                        ),
                decreases members.len() - i,
            {
                let member = &members[i];
                assert(model[i as int] == (member.0@, member.1@));
                match Link::decode(&member.1) {
                    Ok(link) => {
                        links.push((member.0.clone(), link));
                    },
                    Err(error) => {
                        assert(link_of(model[i as int].1) is None);
                        return Err(error);
                    },
                }
                i = i + 1;
            }
            assert(links.deep_view() =~= links_of(document@).unwrap());
            Ok(links)
        },
        _ => Err(Error::MalformedPayload),
    }
}

/// Decodes a list of tags.
pub fn decode_tags(document: &Json) -> (tags: Result<Vec<String>, Error>)
    ensures
        agrees(tags, tags_of(document@)),
{
    match document {
        Json::Array(items) => {
            let ghost model = crate::json::items_view(items@);
            let mut tags: Vec<String> = Vec::new();
            let mut i: usize = 0;
            while i < items.len()
                invariant
                    i <= items.len(),
                    tags.len() == i,
                    model == crate::json::items_view(items@),
                    document@ == JsonValue::Array(model),
                    forall|k: int| 0 <= k < i ==> (#[trigger] model[k]).text() is Some,
                    forall|k: int| 0 <= k < i ==> (#[trigger] tags@[k])@ == model[k].text().unwrap(),
                decreases items.len() - i,
            {
                let item = &items[i];
                assert(model[i as int] == item@);
                match item.as_text() {
                    Some(text) => {
                        tags.push(String::from_str(text));
                    },
                    None => {
                        assert(model[i as int].text() is None);
                        return Err(Error::MalformedPayload);
                    },
                }
                i = i + 1;
            }
            assert(tags.deep_view() =~= tags_of(document@).unwrap());
            Ok(tags)
        },
        _ => Err(Error::MalformedPayload),
    }
}

/// Decodes a set of parameters by name.
pub fn decode_parameters(document: &Json) -> (parameters: Result<Vec<(String, Json)>, Error>)
    ensures
        agrees(parameters, parameters_of(document@)),
{
    match document {
        Json::Object(members) => {
            let ghost model = crate::json::members_view(members@);
            let mut parameters: Vec<(String, Json)> = Vec::new();
            let mut i: usize = 0;
            while i < members.len()
                invariant
                    i <= members.len(),
                    parameters.len() == i,
                    model == crate::json::members_view(members@),
                    forall|k: int| 0 <= k < i ==> (#[trigger] parameters@[k]).deep_view() == model[k],
                decreases members.len() - i,
            {
                let member = &members[i];
                assert(model[i as int] == (member.0@, member.1@));
                parameters.push((member.0.clone(), member.1.clone()));
                i = i + 1;
            }
            assert(parameters.deep_view() =~= model);
            Ok(parameters)
        },
        _ => Err(Error::MalformedPayload),
    }
}

impl Build {
    /// The template parameter that goes by `name`.
    pub fn parameter(&self, name: &str) -> (found: Option<&Json>)
        ensures
            match found {
                Some(value) => find(self@.template_parameters, name@) == Some(value@),
                None => find(self@.template_parameters, name@) is None,
            },
    {
        get_named(&self.template_parameters, name)
    }

    /// Decodes the fields that describe a run.
    pub fn decode(document: &Json) -> (build: Result<Build, Error>)
        ensures
            agrees(build, build_of(document@)),
    {
        let tags = match document.get("tags") {
            None => Vec::new(),
            Some(tags) => decode_tags(tags)?,
        };
        let template_parameters = match document.get("templateParameters") {
            None => Vec::new(),
            Some(parameters) => decode_parameters(parameters)?,
        };
        assert(tags.deep_view() =~= tags_member(document@).unwrap());
        assert(template_parameters.deep_view() =~= parameters_member(document@).unwrap());
        let id = document.required_unsigned("id")?;
        let url = document.required_url("url")?;
        let build_number = document.required_text("buildNumber")?;
        let status = document.required_text("status")?;
        let result = document.required_text("result")?;
        let queue_time = document.required_time("queueTime")?;
        let start_time = document.required_time("startTime")?;
        let finish_time = document.required_time("finishTime")?;
        let reason = document.required_text("reason")?;
        Ok(
            Build {
                tags,
                template_parameters,
                id,
                url,
                build_number,
                status,
                result,
                queue_time,
                start_time,
                finish_time,
                reason,
            },
        )
    }
}

impl BuildComplete {
    /// The link that goes by `name`, such as `web`.
    pub fn link(&self, name: &str) -> (found: Option<&Link>)
        ensures
            match found {
                Some(link) => find(self@.links, name@) == Some(link@),
                None => find(self@.links, name@) is None,
            },
    {
        get_named(&self.links, name)
    }

    /// Decodes the resource of a `build.complete` event.
    pub fn decode(document: &Json) -> (resource: Result<BuildComplete, Error>)
        ensures
            agrees(resource, build_complete_of(document@)),
    {
        let links = match document.get_present("_links") {
            None => {
                return Err(Error::MalformedPayload);
            },
            Some(links) => decode_links(links)?,
        };
        let info = Build::decode(document)?;
        Ok(BuildComplete { links, info })
    }
}

} // verus!
