//! Guild records: the stored settings of a guild, the record created when
//! the bot meets a guild, and the get-or-create protocol of the models.

use vstd::prelude::*;

use crate::sqlx_helper::{FieldSpec, StructSpec};
use crate::text::{replace, replaced};

verus! {

/// A guild's stored settings.
pub struct Guild {
    pub id: i64,
    pub name: String,
    pub icon_url: String,
    pub locale: String,
    pub voice_model: String,
}

fn field(name: &str, ty: &str, pk: bool) -> (f: FieldSpec)
    ensures
        f.name@ == name@,
        f.ty@ == ty@,
        f.pk == pk,
        !f.create_ignore,
        !f.update_ignore,
{
    FieldSpec { name: String::from_str(name), ty: String::from_str(ty), pk, create_ignore: false, update_ignore: false }
}

impl Guild {
    /// The record's shape as the query generator reads it: the struct
    /// `Guild`, no table name given, the key `id` and four text columns.
    pub fn table_spec() -> (s: StructSpec)
        ensures
            s.ident@ == "Guild"@,
            s.table is None,
            s.named,
            s.fields@.len() == 5,
            s.fields@[0].name@ == "id"@ && s.fields@[0].pk,
            forall|i: int| 1 <= i < 5 ==> !(#[trigger] s.fields@[i]).pk,
            forall|i: int| 0 <= i < 5 ==> !(#[trigger] s.fields@[i]).create_ignore && !s.fields@[i].update_ignore,
            s.fields@[1].name@ == "name"@,
            s.fields@[2].name@ == "icon_url"@,
            s.fields@[3].name@ == "locale"@,
            s.fields@[4].name@ == "voice_model"@,
    {
        let mut fields: Vec<FieldSpec> = Vec::new();
        fields.push(field("id", "i64", true));
        fields.push(field("name", "String", false));
        fields.push(field("icon_url", "String", false));
        fields.push(field("locale", "String", false));
        fields.push(field("voice_model", "String", false));
        StructSpec { ident: String::from_str("Guild"), table: None, named: true, fields }
    }
}

/// The outcome of reading a guild's record.
#[derive(Clone, Copy, Debug, PartialEq, Eq, Structural)]
pub enum GuildLookup {
    Found,
    Missing,
    Failed,
}

/// The icon stored for a guild: its icon URL (empty without one) with every
/// `.webp` replaced by `.png`.
pub open spec fn stored_icon(icon_url: Option<Seq<char>>) -> Seq<char> {
    replaced(match icon_url { Some(u) => u, None => Seq::<char>::empty() }, ".webp"@, ".png"@)
}

/// The record to create when the bot meets a guild: only when it has none
/// yet, with the guild's id, name and icon, locale `ja-JP` and voice model
/// `JP-Female-Normal-A`.
pub fn guild_create(lookup: GuildLookup, guild_id: u64, name: &str, icon_url: Option<String>) -> (r: Option<Guild>)
    ensures
        lookup != GuildLookup::Missing ==> r is None,
        lookup == GuildLookup::Missing ==> (r matches Some(g) && {
            &&& g.id == guild_id as i64
            &&& g.name@ == name@
            &&& g.icon_url@ == stored_icon(match icon_url { Some(u) => Some(u@), None => None })
            &&& g.locale@ == "ja-JP"@
            &&& g.voice_model@ == "JP-Female-Normal-A"@
        }),
{
    match lookup {
        GuildLookup::Missing => {
            let icon = match icon_url {
                Some(u) => u,
                None => String::new(),
            };
            proof {
                reveal_strlit(".webp");
            }
            let icon = replace(icon.as_str(), ".webp", ".png");
            Some(Guild {
                id: guild_id as i64,
                name: String::from_str(name),
                icon_url: icon,
                locale: String::from_str("ja-JP"),
                voice_model: String::from_str("JP-Female-Normal-A"),
            })
        },
        _ => None,
    }
}

/// The failures of a database call, as the models distinguish them.
#[derive(Clone, Copy, Debug, PartialEq, Eq, Structural)]
pub enum DbError {
    RowNotFound,
    Other,
}

/// Where a get-or-create stands.
#[derive(Clone, Copy, Debug, PartialEq, Eq, Structural)]
pub enum CheckedCreateStage {
    AwaitFirstGet,
    AwaitCreate,
    AwaitSecondGet,
    Done,
}

/// What a get-or-create asks for, or its result.
pub enum CheckedCreateAction<D> {
    Get,
    Create,
    Finish(Result<D, DbError>),
}

/// What the database answered.
pub enum CheckedCreateEvent<D> {
    Got(Result<D, DbError>),
    Created(Result<(), DbError>),
}

/// A get-or-create starts by reading the record.
pub fn checked_create_start<D>() -> (r: (CheckedCreateStage, CheckedCreateAction<D>))
    ensures
        r.0 == CheckedCreateStage::AwaitFirstGet,
        r.1 is Get,
{
    (CheckedCreateStage::AwaitFirstGet, CheckedCreateAction::Get)
}

/// One step of a get-or-create: an existing record is the result; a missing
/// one is created and read again, and that second read is the result; any
/// other failure, of the read or of the creation, is the result. Reports
/// that do not fit end it with no action.
pub open spec fn checked_create_spec<D>(stage: CheckedCreateStage, event: CheckedCreateEvent<D>) -> (CheckedCreateStage, CheckedCreateAction<D>) {
    match (stage, event) {
        (CheckedCreateStage::AwaitFirstGet, CheckedCreateEvent::Got(res)) => match res {
            Ok(d) => (CheckedCreateStage::Done, CheckedCreateAction::Finish(Ok(d))),
            Err(DbError::RowNotFound) => (CheckedCreateStage::AwaitCreate, CheckedCreateAction::Create),
            Err(e) => (CheckedCreateStage::Done, CheckedCreateAction::Finish(Err(e))),
        },
        (CheckedCreateStage::AwaitCreate, CheckedCreateEvent::Created(res)) => match res {
            Ok(()) => (CheckedCreateStage::AwaitSecondGet, CheckedCreateAction::Get),
            Err(e) => (CheckedCreateStage::Done, CheckedCreateAction::Finish(Err(e))),
        },
        (CheckedCreateStage::AwaitSecondGet, CheckedCreateEvent::Got(res)) =>
            (CheckedCreateStage::Done, CheckedCreateAction::Finish(res)),
        (_, CheckedCreateEvent::Got(res)) => (CheckedCreateStage::Done, CheckedCreateAction::Finish(res)),
        (_, CheckedCreateEvent::Created(res)) => match res {
            Ok(()) => (CheckedCreateStage::Done, CheckedCreateAction::Finish(Err(DbError::Other))),
            Err(e) => (CheckedCreateStage::Done, CheckedCreateAction::Finish(Err(e))),
        },
    }
}

/// Advances a get-or-create with the database's answer.
pub fn checked_create_step<D>(stage: CheckedCreateStage, event: CheckedCreateEvent<D>) -> (r: (CheckedCreateStage, CheckedCreateAction<D>))
    requires
        stage != CheckedCreateStage::Done,
    ensures
        r == checked_create_spec(stage, event),
{
    match (stage, event) {
        (CheckedCreateStage::AwaitFirstGet, CheckedCreateEvent::Got(res)) => match res {
            Ok(d) => (CheckedCreateStage::Done, CheckedCreateAction::Finish(Ok(d))),
            Err(DbError::RowNotFound) => (CheckedCreateStage::AwaitCreate, CheckedCreateAction::Create),
            Err(e) => (CheckedCreateStage::Done, CheckedCreateAction::Finish(Err(e))),
        },
        (CheckedCreateStage::AwaitCreate, CheckedCreateEvent::Created(res)) => match res {
            Ok(()) => (CheckedCreateStage::AwaitSecondGet, CheckedCreateAction::Get),
            Err(e) => (CheckedCreateStage::Done, CheckedCreateAction::Finish(Err(e))),
        },
        (CheckedCreateStage::AwaitSecondGet, CheckedCreateEvent::Got(res)) =>
            (CheckedCreateStage::Done, CheckedCreateAction::Finish(res)),
        (_, CheckedCreateEvent::Got(res)) => (CheckedCreateStage::Done, CheckedCreateAction::Finish(res)),
        (_, CheckedCreateEvent::Created(res)) => match res {
            Ok(()) => (CheckedCreateStage::Done, CheckedCreateAction::Finish(Err(DbError::Other))),
            Err(e) => (CheckedCreateStage::Done, CheckedCreateAction::Finish(Err(e))),
        },
    }
}

} // verus!
