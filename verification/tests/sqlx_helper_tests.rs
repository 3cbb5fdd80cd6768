use ttsbot::guilds::Guild;
use ttsbot::sqlx_helper::{create, delete, get, update, DeriveError, FieldSpec, StructSpec};

fn field(name: &str, ty: &str, pk: bool, create_ignore: bool, update_ignore: bool) -> FieldSpec {
    FieldSpec { name: name.into(), ty: ty.into(), pk, create_ignore, update_ignore }
}

fn names(p: &ttsbot::sqlx_helper::QueryPlan) -> Vec<String> {
    p.params.iter().map(|f| f.name.clone()).collect()
}

#[test]
fn guild_queries() {
    let s = Guild::table_spec();
    let g = get(&s).ok().unwrap();
    assert_eq!(g.method, "get");
    assert_eq!(g.query, "SELECT * FROM guild WHERE id = $1");
    assert_eq!(names(&g), vec!["id"]);
    let c = create(&s).ok().unwrap();
    assert_eq!(c.query, "INSERT INTO guild (id, name, icon_url, locale, voice_model) VALUES ($1, $2, $3, $4, $5)");
    assert_eq!(names(&c), vec!["id", "name", "icon_url", "locale", "voice_model"]);
    let u = update(&s).ok().unwrap();
    assert_eq!(u.len(), 5);
    assert_eq!(u[0].method, "update");
    assert_eq!(u[0].query, "UPDATE guild SET name = $2,icon_url = $3,locale = $4,voice_model = $5 WHERE id = $1");
    assert_eq!(names(&u[0]), vec!["id", "name", "icon_url", "locale", "voice_model"]);
    assert_eq!(u[3].method, "set_locale");
    assert_eq!(u[3].query, "UPDATE guild SET id = $1 WHERE locale = $2");
    assert_eq!(names(&u[3]), vec!["id", "locale"]);
    assert_eq!(u[4].method, "set_voice_model");
    let d = delete(&s).ok().unwrap();
    assert_eq!(d.query, "DELETE FROM guild WHERE id = $1");
}

#[test]
fn table_name_and_ignored_fields() {
    let s = StructSpec {
        ident: "Guilds".into(),
        table: Some("guild".into()),
        named: true,
        fields: vec![field("id", "i64", true, true, false), field("channel_id", "i64", false, false, false)],
    };
    assert_eq!(create(&s).ok().unwrap().query, "INSERT INTO guild (channel_id) VALUES ($1)");
    assert_eq!(get(&s).ok().unwrap().query, "SELECT * FROM guild WHERE id = $1");
    let s = StructSpec {
        ident: "Submission".into(),
        table: None,
        named: true,
        fields: vec![field("id", "i32", true, false, false), field("result", "String", false, false, true), field("point", "i32", false, false, false)],
    };
    let u = update(&s).ok().unwrap();
    assert_eq!(u[0].query, "UPDATE submission SET point = $2 WHERE id = $1");
    assert_eq!(u.len(), 2);
    let e = StructSpec { ident: "Empty".into(), table: None, named: true, fields: vec![] };
    assert_eq!(create(&e).ok().unwrap().query, "INSERT INTO empty () VALUES ()");
}

#[test]
fn primary_key_errors() {
    let none = StructSpec { ident: "A".into(), table: None, named: true, fields: vec![field("x", "i32", false, false, false)] };
    let two = StructSpec { ident: "A".into(), table: None, named: true, fields: vec![field("x", "i32", true, false, false), field("y", "i32", true, false, false)] };
    match get(&none) {
        Err(e @ DeriveError::MissingPrimaryKey { .. }) => assert_eq!(e.message(), "`#[get(pk)]` must be specified for the primary key"),
        _ => panic!("expected a missing key"),
    }
    match get(&two) {
        Err(e @ DeriveError::DuplicatePrimaryKey { .. }) => assert_eq!(e.message(), "`#[get(pk)]` can be used only once"),
        _ => panic!("expected a duplicate key"),
    }
    match update(&none) {
        Err(e) => assert_eq!(e.message(), "`#[delete(pk)]` must be specified for the primary key"),
        _ => panic!("expected a missing key"),
    }
    match delete(&two) {
        Err(e) => assert_eq!(e.message(), "`#[delete(pk)]` can be used only once"),
        _ => panic!("expected a duplicate key"),
    }
}

#[test]
fn structs_without_named_fields_are_refused() {
    let t = StructSpec { ident: "T".into(), table: None, named: false, fields: vec![field("0", "i32", true, false, false)] };
    for r in [get(&t).err(), create(&t).err(), delete(&t).err(), update(&t).err()] {
        assert_eq!(r.map(|e| e.message()), Some("invalid syntax".to_string()));
    }
}
