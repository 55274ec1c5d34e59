use vstd::prelude::*;

use crate::fields::Field;
use crate::status::StateSet;

verus! {

/// One backend command on the keys of a topic. A job is named by its id (the
/// hash key is derived from it); a sorted set by its state.
#[derive(Debug, Clone)]
pub enum Command {
    /// `HSET <hash of id> <field> <value>`
    HSet { id: String, field: Field, value: String },
    /// `HEXISTS <hash of id> <field>`: replies whether the field is there.
    HExists { id: String, field: Field },
    /// `HGETALL <hash of id>`: replies with the field/value pairs.
    HGetAll { id: String },
    /// `EXISTS <hash of id>`: replies whether the hash is there.
    Exists { id: String },
    /// `DEL <hash of id>`: replies with the number of hashes deleted.
    Del { id: String },
    /// `EXPIRE <hash of id> <seconds>`
    Expire { id: String, seconds: i64 },
    /// `ZADD <set> <score> <id>`
    ZAdd { set: StateSet, id: String, score: i64 },
    /// `ZREM <set> <id>`: replies with the number of members removed.
    ZRem { set: StateSet, id: String },
    /// `ZSCORE <set> <id>`: replies with the score, if a member.
    ZScore { set: StateSet, id: String },
    /// `ZRANGE <set> 0 -1`: replies with every member, lowest score first.
    ZRange { set: StateSet },
    /// `ZRANGEBYSCORE <set> -inf <max>`: replies with the members scored at most `max`.
    ZRangeByScore { set: StateSet, max: i64 },
    /// `ZREMRANGEBYSCORE <set> -inf <max>`: replies with the number removed.
    ZRemRangeByScore { set: StateSet, max: i64 },
}

/// A command over plain values.
pub enum CommandView {
    HSet(Seq<char>, Field, Seq<char>),
    HExists(Seq<char>, Field),
    HGetAll(Seq<char>),
    Exists(Seq<char>),
    Del(Seq<char>),
    Expire(Seq<char>, i64),
    ZAdd(StateSet, Seq<char>, i64),
    ZRem(StateSet, Seq<char>),
    ZScore(StateSet, Seq<char>),
    ZRange(StateSet),
    ZRangeByScore(StateSet, i64),
    ZRemRangeByScore(StateSet, i64),
}

impl View for Command {
    type V = CommandView;

    open spec fn view(&self) -> CommandView {
        match self {
            Command::HSet { id, field, value } => CommandView::HSet(id@, *field, value@),
            Command::HExists { id, field } => CommandView::HExists(id@, *field),
            Command::HGetAll { id } => CommandView::HGetAll(id@),
            Command::Exists { id } => CommandView::Exists(id@),
            Command::Del { id } => CommandView::Del(id@),
            Command::Expire { id, seconds } => CommandView::Expire(id@, *seconds),
            Command::ZAdd { set, id, score } => CommandView::ZAdd(*set, id@, *score),
            Command::ZRem { set, id } => CommandView::ZRem(*set, id@),
            Command::ZScore { set, id } => CommandView::ZScore(*set, id@),
            Command::ZRange { set } => CommandView::ZRange(*set),
            Command::ZRangeByScore { set, max } => CommandView::ZRangeByScore(*set, *max),
            Command::ZRemRangeByScore { set, max } => CommandView::ZRemRangeByScore(*set, *max),
        }
    }
}

/// The plain values of a list of commands.
pub open spec fn views(cs: Seq<Command>) -> Seq<CommandView> {
    cs.map_values(|c: Command| c@)
}

} // verus!
