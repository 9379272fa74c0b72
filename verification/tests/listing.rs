use conoha::client::{flavors_from_reply, images_from_reply, servers_from_reply};
use conoha::http::Reply;
use conoha::json::{
    decode_flavor, decode_image, decode_server, decode_servers, get_field, get_text, parse_document,
    parse_flavors, parse_images, parse_servers, Json, Member,
};
use conoha::types::ApiError;

fn text(s: &str) -> Json {
    Json::Text(s.to_string())
}

fn member(key: &str, value: Json) -> Member {
    Member { key: key.to_string(), value }
}

#[test]
fn one_server_with_exactly_its_fields() {
    let list = parse_servers(
        "{\"servers\":[{\"id\":\"1\",\"name\":\"a\",\"tenant_id\":\"t\",\"status\":\"ACTIVE\"}]}",
    )
    .expect("a valid envelope");
    assert_eq!(list.servers.len(), 1);
    assert_eq!(list.servers[0].id, "1");
    assert_eq!(list.servers[0].name, "a");
    assert_eq!(list.servers[0].tenant_id, "t");
    assert_eq!(list.servers[0].status, "ACTIVE");
}

#[test]
fn servers_keep_their_order() {
    let list = parse_servers(
        "{\"servers\":[{\"id\":\"9\",\"name\":\"z\",\"tenant_id\":\"t\",\"status\":\"SHUTOFF\"},{\"id\":\"1\",\"name\":\"a\",\"tenant_id\":\"t\",\"status\":\"ACTIVE\"},{\"id\":\"5\",\"name\":\"m\",\"tenant_id\":\"t\",\"status\":\"BUILD\"}]}",
    )
    .expect("a valid envelope");
    let ids: Vec<&str> = list.servers.iter().map(|s| s.id.as_str()).collect();
    assert_eq!(ids, vec!["9", "1", "5"]);
}

#[test]
fn members_that_are_not_asked_for_are_passed_over() {
    let list = parse_servers(
        "{\"servers\":[{\"status\":\"ACTIVE\",\"addresses\":{\"ext\":[1,2.5,null,true]},\"id\":\"1\",\"name\":\"a\",\"tenant_id\":\"t\"}],\"links\":[]}",
    )
    .expect("a valid envelope");
    assert_eq!(list.servers.len(), 1);
    assert_eq!(list.servers[0].status, "ACTIVE");
}

#[test]
fn empty_list_is_a_list() {
    assert_eq!(parse_servers("{\"servers\":[]}").expect("an empty list").servers.len(), 0);
    assert_eq!(parse_flavors("{\"flavors\":[]}").expect("an empty list").flavors.len(), 0);
    assert_eq!(parse_images("{\"images\":[]}").expect("an empty list").images.len(), 0);
}

#[test]
fn flavors_and_images_are_read() {
    let flavors = parse_flavors(
        "{\"flavors\":[{\"id\":\"f1\",\"name\":\"g-1gb\"},{\"id\":\"f2\",\"name\":\"g-2gb\"}]}",
    )
    .expect("a valid envelope");
    assert_eq!(flavors.flavors.len(), 2);
    assert_eq!(flavors.flavors[0].id, "f1");
    assert_eq!(flavors.flavors[0].name, "g-1gb");
    assert_eq!(flavors.flavors[1].id, "f2");
    assert_eq!(flavors.flavors[1].name, "g-2gb");
    let images = parse_images("{\"images\":[{\"id\":\"i1\",\"name\":\"vmi-ubuntu\"}]}")
        .expect("a valid envelope");
    assert_eq!(images.images.len(), 1);
    assert_eq!(images.images[0].id, "i1");
    assert_eq!(images.images[0].name, "vmi-ubuntu");
}

#[test]
fn malformed_json_is_an_error() {
    assert!(matches!(parse_servers("{\"servers\":["), Err(ApiError::ResponseShape)));
    assert!(matches!(parse_servers(""), Err(ApiError::ResponseShape)));
    assert!(matches!(parse_servers("not json"), Err(ApiError::ResponseShape)));
    assert!(matches!(parse_flavors("{\"flavors\":[}"), Err(ApiError::ResponseShape)));
    assert!(matches!(parse_images("{\"images\" []}"), Err(ApiError::ResponseShape)));
}

#[test]
fn another_shape_is_an_error() {
    assert!(matches!(parse_servers("{}"), Err(ApiError::ResponseShape)));
    assert!(matches!(parse_servers("[]"), Err(ApiError::ResponseShape)));
    assert!(matches!(parse_servers("{\"servers\":{}}"), Err(ApiError::ResponseShape)));
    assert!(matches!(parse_servers("{\"flavors\":[]}"), Err(ApiError::ResponseShape)));
    assert!(matches!(
        parse_servers("{\"servers\":[{\"id\":\"1\",\"name\":\"a\",\"tenant_id\":\"t\"}]}"),
        Err(ApiError::ResponseShape)
    ));
    assert!(matches!(
        parse_servers("{\"servers\":[{\"id\":1,\"name\":\"a\",\"tenant_id\":\"t\",\"status\":\"ACTIVE\"}]}"),
        Err(ApiError::ResponseShape)
    ));
    assert!(matches!(
        parse_flavors("{\"flavors\":[{\"id\":\"f1\",\"name\":\"x\"},{\"id\":\"f2\"}]}"),
        Err(ApiError::ResponseShape)
    ));
    assert!(matches!(parse_images("{\"images\":[null]}"), Err(ApiError::ResponseShape)));
}

#[test]
fn replies_to_listings() {
    assert!(matches!(servers_from_reply(Reply::Failed), Err(ApiError::Transport)));
    assert!(matches!(flavors_from_reply(Reply::Failed), Err(ApiError::Transport)));
    assert!(matches!(images_from_reply(Reply::Failed), Err(ApiError::Transport)));
    assert!(matches!(
        servers_from_reply(Reply::Answered { status: 200, body: None }),
        Err(ApiError::Transport)
    ));
    assert!(matches!(
        servers_from_reply(Reply::Answered { status: 200, body: Some("<html>".to_string()) }),
        Err(ApiError::ResponseShape)
    ));
    let list = flavors_from_reply(Reply::Answered {
        status: 200,
        body: Some("{\"flavors\":[{\"id\":\"f1\",\"name\":\"g-1gb\"}]}".to_string()),
    })
    .expect("a valid envelope");
    assert_eq!(list.flavors.len(), 1);
    assert_eq!(list.flavors[0].name, "g-1gb");
}

#[test]
fn documents_are_parsed_into_plain_values() {
    let doc = parse_document("[null, true, 12, \"a\\\"b\", {\"k\": [], \"a\": -1.5}]").expect("JSON");
    let items = match doc {
        Json::Array(items) => items,
        other => panic!("no array: {:?}", other),
    };
    assert_eq!(items.len(), 5);
    assert!(matches!(items[0], Json::Null));
    assert!(matches!(items[1], Json::Bool(true)));
    assert!(matches!(&items[2], Json::Number(n) if n == "12"));
    assert!(matches!(&items[3], Json::Text(s) if s == "a\"b"));
    assert!(matches!(get_field(&items[4], "k"), Some(Json::Array(inner)) if inner.is_empty()));
    assert!(matches!(get_field(&items[4], "a"), Some(Json::Number(n)) if n == "-1.5"));
    assert!(get_field(&items[4], "z").is_none());
    assert!(parse_document("{\"a\":").is_none());
    assert!(parse_document("\"servers\"").is_some());
}

#[test]
fn first_member_with_a_key_counts() {
    let doc = Json::Object(vec![
        member("name", text("first")),
        member("id", Json::Null),
        member("name", text("second")),
    ]);
    assert_eq!(get_text(&doc, "name"), Some("first".to_string()));
    assert_eq!(get_text(&doc, "id"), None);
    assert_eq!(get_text(&doc, "status"), None);
    assert_eq!(get_text(&Json::Array(vec![]), "name"), None);
}

#[test]
fn entities_from_plain_values() {
    let item = Json::Object(vec![
        member("id", text("1")),
        member("name", text("a")),
        member("tenant_id", text("t")),
        member("status", text("ACTIVE")),
    ]);
    let server = decode_server(&item).expect("a server");
    assert_eq!(server.id, "1");
    assert_eq!(server.name, "a");
    assert_eq!(server.tenant_id, "t");
    assert_eq!(server.status, "ACTIVE");
    let flavor = decode_flavor(&item).expect("a flavor");
    assert_eq!(flavor.id, "1");
    assert_eq!(flavor.name, "a");
    let image = decode_image(&item).expect("an image");
    assert_eq!(image.id, "1");
    assert_eq!(image.name, "a");
    assert!(decode_server(&Json::Object(vec![member("id", text("1"))])).is_none());
    assert!(decode_flavor(&text("f")).is_none());
    let envelope = Json::Object(vec![member("servers", Json::Array(vec![item]))]);
    assert_eq!(decode_servers(&envelope).expect("a list").servers.len(), 1);
    assert!(decode_servers(&Json::Object(vec![member("servers", text("none"))])).is_none());
}
