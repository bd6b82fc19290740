use ado_hooks::error::Error;
use ado_hooks::json::Json;
use ado_hooks::resource::{decode_links, decode_parameters, decode_tags, Build, BuildComplete, Link};

const RESOURCE: &str = r#"{"_links":{"web":{"href":"https://fabrikam-fiber-inc.visualstudio.com/DefaultCollection/71777fbc-1cf2-4bd1-9540-128c1c71f766/_apis/build/Builds/1"}},"id":1,"buildNumber":"20150407.2","status":"completed","result":"succeeded","queueTime":"2015-04-07T17:22:56.22Z","startTime":"2015-04-07T17:23:02.4977418Z","finishTime":"2015-04-07T17:24:20.763574Z","url":"https://fabrikam-fiber-inc.visualstudio.com/DefaultCollection/71777fbc-1cf2-4bd1-9540-128c1c71f766/_apis/build/Builds/1","definition":{"id":1,"name":"CustomerAddressModule"},"uri":"vstfs:///Build/Build/1","sourceBranch":"refs/heads/master","queue":{"id":1,"name":"default","pool":null},"priority":"normal","reason":"batchedCI","triggeredByBuild":null,"appendCommitMessageToRunName":true}"#;

fn without_member(name: &str) -> Json {
    match Json::parse(RESOURCE).expect("a document") {
        Json::Object(members) => {
            Json::Object(members.into_iter().filter(|(key, _)| key != name).collect())
        }
        other => other,
    }
}

fn with_member(name: &str, value: Json) -> Json {
    match without_member(name) {
        Json::Object(mut members) => {
            members.push((name.to_string(), value));
            Json::Object(members)
        }
        other => other,
    }
}

#[test]
fn build_complete_decodes_the_sample_resource() {
    let document = Json::parse(RESOURCE).expect("a document");
    let resource = BuildComplete::decode(&document).expect("a build-completion resource");
    assert_eq!(resource.links.len(), 1);
    assert_eq!(resource.links[0].0, "web");
    assert_eq!(
        resource.links[0].1.href.as_str(),
        "https://fabrikam-fiber-inc.visualstudio.com/DefaultCollection/71777fbc-1cf2-4bd1-9540-128c1c71f766/_apis/build/Builds/1"
    );
    let info = resource.info;
    assert_eq!(info.id, 1);
    assert_eq!(info.build_number, "20150407.2");
    assert_eq!(info.status, "completed");
    assert_eq!(info.result, "succeeded");
    assert_eq!(info.reason, "batchedCI");
    assert_eq!(info.queue_time.as_str(), "2015-04-07T17:22:56.220Z");
    assert_eq!(info.start_time.as_str(), "2015-04-07T17:23:02.497741800Z");
    assert_eq!(info.finish_time.as_str(), "2015-04-07T17:24:20.763574Z");
    assert_eq!(
        info.url.as_str(),
        "https://fabrikam-fiber-inc.visualstudio.com/DefaultCollection/71777fbc-1cf2-4bd1-9540-128c1c71f766/_apis/build/Builds/1"
    );
    assert_eq!(info.tags, Vec::<String>::new());
    assert_eq!(info.template_parameters, Vec::<(String, Json)>::new());
}

#[test]
fn build_complete_needs_every_required_member() {
    for name in [
        "_links",
        "id",
        "url",
        "buildNumber",
        "status",
        "result",
        "queueTime",
        "startTime",
        "finishTime",
        "reason",
    ] {
        assert_eq!(
            BuildComplete::decode(&without_member(name)),
            Err(Error::MalformedPayload),
            "without {}",
            name
        );
        assert_eq!(
            BuildComplete::decode(&with_member(name, Json::Null)),
            Err(Error::MalformedPayload),
            "with {} null",
            name
        );
    }
}

#[test]
fn build_complete_passes_over_unknown_members() {
    let plain = BuildComplete::decode(&Json::parse(RESOURCE).expect("a document"));
    assert_eq!(BuildComplete::decode(&without_member("definition")), plain);
    assert_eq!(BuildComplete::decode(&with_member("somethingNew", Json::Uint(3))), plain);
}

#[test]
fn build_reads_tags_and_parameters_where_they_are_there() {
    let document = with_member(
        "tags",
        Json::Array(vec![Json::Text("nightly".to_string()), Json::Text("prod".to_string())]),
    );
    let document = match document {
        Json::Object(mut members) => {
            members.push((
                "templateParameters".to_string(),
                Json::Object(vec![
                    ("retries".to_string(), Json::Uint(3)),
                    ("ratio".to_string(), Json::Real("0.5".to_string())),
                ]),
            ));
            Json::Object(members)
        }
        other => other,
    };
    let build = Build::decode(&document).expect("a build");
    assert_eq!(build.tags, vec!["nightly".to_string(), "prod".to_string()]);
    assert_eq!(
        build.template_parameters,
        vec![
            ("retries".to_string(), Json::Uint(3)),
            ("ratio".to_string(), Json::Real("0.5".to_string())),
        ]
    );
}

#[test]
fn build_refuses_members_of_the_wrong_shape() {
    let wrong = [
        ("tags", Json::Null),
        ("tags", Json::Text("nightly".to_string())),
        ("tags", Json::Array(vec![Json::Uint(1)])),
        ("templateParameters", Json::Null),
        ("templateParameters", Json::Array(vec![])),
        ("id", Json::Text("1".to_string())),
        ("id", Json::Int(-1)),
        ("id", Json::Real("1.0".to_string())),
        ("url", Json::Text("not a url".to_string())),
        ("buildNumber", Json::Uint(20150407)),
        ("queueTime", Json::Text("0001-01-01T00:00:00".to_string())),
    ];
    for (name, value) in wrong {
        assert_eq!(
            Build::decode(&with_member(name, value.clone())),
            Err(Error::MalformedPayload),
            "{} = {:?}",
            name,
            value
        );
    }
}

#[test]
fn build_takes_a_signed_number_that_is_not_negative() {
    let build = Build::decode(&with_member("id", Json::Int(7))).expect("a build");
    assert_eq!(build.id, 7);
}

#[test]
fn link_needs_an_absolute_url() {
    let link = Link::decode(&Json::parse(r#"{"href":"HTTPS://Example.com/x"}"#).expect("a document"))
        .expect("a link");
    assert_eq!(link.href.as_str(), "https://example.com/x");
    for text in [r#"{}"#, r#"{"href":null}"#, r#"{"href":"/relative"}"#, r#"{"href":1}"#, r#""x""#] {
        assert_eq!(
            Link::decode(&Json::parse(text).expect("a document")),
            Err(Error::MalformedPayload)
        );
    }
}

#[test]
fn links_tags_and_parameters_need_their_container() {
    assert_eq!(decode_links(&Json::Array(vec![])), Err(Error::MalformedPayload));
    assert_eq!(decode_links(&Json::Object(vec![])), Ok(vec![]));
    assert_eq!(
        decode_links(&Json::Object(vec![("web".to_string(), Json::Null)])),
        Err(Error::MalformedPayload)
    );
    assert_eq!(decode_tags(&Json::Object(vec![])), Err(Error::MalformedPayload));
    assert_eq!(decode_tags(&Json::Array(vec![])), Ok(vec![]));
    assert_eq!(decode_parameters(&Json::Array(vec![])), Err(Error::MalformedPayload));
    assert_eq!(
        decode_parameters(&Json::Object(vec![("a".to_string(), Json::Null)])),
        Ok(vec![("a".to_string(), Json::Null)])
    );
}

const DEFINITION: &str = r#"{"id":1,"name":"CustomerAddressModule","url":"https://example.com/_apis/build/Definitions/1","uri":"vstfs:///Build/Definition/1","path":"\\","type":"build","queueStatus":"enabled","revision":2,"project":{"id":"71777fbc-1cf2-4bd1-9540-128c1c71f766","name":"Git","description":"","url":"https://example.com/_apis/projects/71777fbc","state":"wellFormed","revision":7,"visibility":"private","lastUpdateTime":"2015-04-07T17:22:56Z"}}"#;

#[test]
fn definition_fragment_decodes_with_its_project() {
    let definition =
        ado_hooks::resource::DefinitionFragment::decode(&Json::parse(DEFINITION).expect("a document"))
            .expect("a definition");
    assert_eq!(definition.id, 1);
    assert_eq!(definition.name, "CustomerAddressModule");
    assert_eq!(definition.url.as_str(), "https://example.com/_apis/build/Definitions/1");
    assert_eq!(definition.uri, "vstfs:///Build/Definition/1");
    assert_eq!(definition.path, "\\");
    assert_eq!(definition.typ_, "build");
    assert_eq!(definition.queue_status, "enabled");
    assert_eq!(definition.revision, 2);
    assert_eq!(definition.project.id.to_text(), "71777fbc-1cf2-4bd1-9540-128c1c71f766");
    assert_eq!(definition.project.name, "Git");
    assert_eq!(definition.project.description, "");
    assert_eq!(definition.project.state, "wellFormed");
    assert_eq!(definition.project.revision, 7);
    assert_eq!(definition.project.visibility, "private");
    assert_eq!(definition.project.last_update_time.as_str(), "2015-04-07T17:22:56Z");
}

#[test]
fn definition_fragment_needs_every_member() {
    let members = match Json::parse(DEFINITION).expect("a document") {
        Json::Object(members) => members,
        _ => unreachable!(),
    };
    for (name, _) in &members {
        let rest: Vec<(String, Json)> =
            members.iter().filter(|(key, _)| key != name).cloned().collect();
        assert_eq!(
            ado_hooks::resource::DefinitionFragment::decode(&Json::Object(rest)),
            Err(Error::MalformedPayload),
            "without {}",
            name
        );
    }
}

#[test]
fn project_fragment_needs_every_member() {
    let project = Json::parse(DEFINITION).expect("a document").get("project").cloned().expect("a project");
    assert!(ado_hooks::resource::ProjectFragment::decode(&project).is_ok());
    let members = match project {
        Json::Object(members) => members,
        _ => unreachable!(),
    };
    for (name, _) in &members {
        let rest: Vec<(String, Json)> =
            members.iter().filter(|(key, _)| key != name).cloned().collect();
        assert_eq!(
            ado_hooks::resource::ProjectFragment::decode(&Json::Object(rest)),
            Err(Error::MalformedPayload),
            "without {}",
            name
        );
    }
}

#[test]
fn links_and_parameters_are_found_by_name() {
    let document = with_member(
        "templateParameters",
        Json::Object(vec![
            ("retries".to_string(), Json::Uint(1)),
            ("mode".to_string(), Json::Text("fast".to_string())),
            ("retries".to_string(), Json::Uint(3)),
        ]),
    );
    let resource = BuildComplete::decode(&document).expect("a resource");
    assert_eq!(
        resource.link("web").map(|link| link.href.as_str()),
        Some("https://fabrikam-fiber-inc.visualstudio.com/DefaultCollection/71777fbc-1cf2-4bd1-9540-128c1c71f766/_apis/build/Builds/1")
    );
    assert_eq!(resource.link("Web"), None);
    assert_eq!(resource.link("self"), None);
    assert_eq!(resource.info.parameter("retries"), Some(&Json::Uint(3)));
    assert_eq!(resource.info.parameter("mode"), Some(&Json::Text("fast".to_string())));
    assert_eq!(resource.info.parameter("missing"), None);
}
