//! The names of the files that an export writes.

use vstd::prelude::*;
use vstd::string::*;

use crate::export::ExportOutputFormat;
use crate::rooms::{localpart, server_name, split_qualified, RoomView, RoomWithCachedInfo};

verus! {

/// The stem of the file names for a room: its name or else its alias in
/// front, and in brackets what else tells the room apart.
pub open spec fn export_filename_stem(room: RoomView) -> Seq<char> {
    let id_local = localpart(room.id);
    let server = server_name(room.id);
    match (room.name, room.canonical_alias) {
        (Some(name), Some(alias)) => name + " ["@ + localpart(alias) + ", "@ + id_local + ", "@
            + server + "]"@,
        (Some(name), None) => name + " ["@ + id_local + ", "@ + server + "]"@,
        (None, Some(alias)) => localpart(alias) + " ["@ + id_local + ", "@ + server + "]"@,
        (None, None) => id_local + " ["@ + server + "]"@,
    }
}

/// The extension that tells a format's files apart.
pub open spec fn extension(format: ExportOutputFormat) -> Seq<char> {
    match format {
        ExportOutputFormat::Json => ".json"@,
        ExportOutputFormat::Txt => ".txt"@,
    }
}

/// The name of the file that holds a room's export in one format.
pub open spec fn export_filename(room: RoomView, format: ExportOutputFormat) -> Seq<char> {
    export_filename_stem(room) + extension(format)
}

/// Derives the stem of a room's file names from its cached name, alias and
/// identifier.
pub fn format_export_filename(room_info: &RoomWithCachedInfo) -> (r: String)
    requires
        room_info.well_formed(),
    ensures
        r@ == export_filename_stem(room_info@),
{
    let (id_local, server) = split_qualified(room_info.id.as_str(), '!');
    let mut stem = match (&room_info.name, &room_info.canonical_alias) {
        (Some(name), Some(alias)) => {
            let (alias_local, _) = split_qualified(alias.as_str(), '#');
            let mut stem = name.clone();
            stem.append(" [");
            stem.append(alias_local);
            stem.append(", ");
            stem.append(id_local);
            stem.append(", ");
            stem
        },
        (Some(name), None) => {
            let mut stem = name.clone();
            stem.append(" [");
            stem.append(id_local);
            stem.append(", ");
            stem
        },
        (None, Some(alias)) => {
            let (alias_local, _) = split_qualified(alias.as_str(), '#');
            let mut stem = alias_local.to_owned();
            stem.append(" [");
            stem.append(id_local);
            stem.append(", ");
            stem
        },
        (None, None) => {
            let mut stem = id_local.to_owned();
            stem.append(" [");
            stem
        },
    };
    stem.append(server);
    stem.append("]");
    stem
}

/// The name of the file for a room's export in `format`, from the stem.
pub fn with_extension(stem: &str, format: ExportOutputFormat) -> (r: String)
    ensures
        r@ == stem@ + extension(format),
{
    let mut name = stem.to_owned();
    match format {
        ExportOutputFormat::Json => name.append(".json"),
        ExportOutputFormat::Txt => name.append(".txt"),
    }
    name
}

} // verus!
