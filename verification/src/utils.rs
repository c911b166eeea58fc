//! Column lists and file types.

use vstd::prelude::*;

use crate::errors::Error;
use crate::text::find_comma;
use crate::text::is_extension_of;
use crate::text::is_plain_name;
use crate::text::kept;
use crate::text::lowercase;
use crate::text::name_extension;
use crate::text::path_extension;
use crate::text::pieces;
use crate::text::str_to_lowercase;
use crate::text::text_is;
use crate::text::text_of;
use crate::text::texts;
use crate::text::trim_range;
use crate::text::trimmed;

verus! {

/// The column names that one text of a selection holds: its parts between
/// commas, trimmed, without the empty ones.
pub open spec fn columns_of(s: Seq<char>) -> Seq<Seq<char>> {
    kept(pieces(s))
}

/// The column names that a selection holds: those of its first text, then
/// those of its second, and so on.
pub open spec fn selected_columns(select: Seq<String>) -> Seq<Seq<char>>
    decreases select.len(),
{
    if select.len() == 0 {
        Seq::empty()
    } else {
        selected_columns(select.drop_last()) + columns_of(select.last()@)
    }
}

/// Trimming and dropping the empty goes through a list part by part.
proof fn lemma_kept_step(first: Seq<char>, rest: Seq<Seq<char>>)
    ensures
        kept(seq![first] + rest) == if trimmed(first).len() > 0 {
            seq![trimmed(first)] + kept(rest)
        } else {
            kept(rest)
        },
{
    let all = seq![first] + rest;
    assert(all[0] == first);
    assert(all.skip(1) == rest);
}

/// Appends to `columns` the column names that `s` holds.
fn push_columns(columns: &mut Vec<String>, s: &str)
    ensures
        texts(final(columns)@) == texts(old(columns)@) + columns_of(s@),
{
    let len: usize = s.unicode_len();
    let ghost before = texts(columns@);
    let ghost mut done: Seq<Seq<char>> = Seq::empty();
    let mut from: usize = 0;
    proof {
        assert(s@.skip(0) == s@);
        assert(before + done == before);
        assert(done + columns_of(s@) == columns_of(s@));
    }
    loop
        invariant_except_break
            texts(columns@) == before + done,
            done + kept(pieces(s@.skip(from as int))) == columns_of(s@),
        invariant
            from <= len,
            len == s@.len(),
        ensures
            texts(columns@) == before + columns_of(s@),
        decreases len - from,
    {
        let ghost rest = s@.skip(from as int);
        let at: usize = find_comma(s, from);
        let part = trim_range(s, from, at);
        let ghost piece = s@.subrange(from as int, at as int);
        let ghost held = texts(columns@);
        let ghost found = done;
        if part.as_str().unicode_len() > 0 {
            columns.push(part);
            proof {
                assert(texts(columns@) == held + seq![trimmed(piece)]);
                done = done + seq![trimmed(piece)];
                assert(before + found + seq![trimmed(piece)] == before + done);
            }
        }
        proof {
            assert(piece == rest.take(at - from));
        }
        if at >= len {
            proof {
                assert(piece == rest);
                assert(seq![rest] == seq![rest] + Seq::<Seq<char>>::empty());
                lemma_kept_step(rest, Seq::<Seq<char>>::empty());
                assert(found + Seq::<Seq<char>>::empty() == found);
                assert(done + Seq::<Seq<char>>::empty() == done);
            }
            break ;
        }
        proof {
            let after = s@.skip(at as int + 1);
            assert(rest.skip(at - from + 1) == after);
            lemma_kept_step(piece, pieces(after));
            assert((found + seq![trimmed(piece)]) + kept(pieces(after)) == found + (seq![
                trimmed(piece),
            ] + kept(pieces(after))));
        }
        from = at + 1;
    }
}

/// Parse column names from `select` by splitting each string at commas, trimming and
/// discarding empty parts. E.g. `["a, b", "c"]` becomes `["a", "b", "c"]`.
pub fn parse_select_columns(select: &[String]) -> (columns: Vec<String>)
    ensures
        texts(columns@) == selected_columns(select@),
{
    let mut columns: Vec<String> = Vec::new();
    let mut i: usize = 0;
    assert(select@.take(0) == Seq::<String>::empty());
    assert(texts(columns@) == Seq::<Seq<char>>::empty());
    while i < select.len()
        invariant
            i <= select.len(),
            texts(columns@) == selected_columns(select@.take(i as int)),
        decreases select.len() - i,
    {
        push_columns(&mut columns, select[i].as_str());
        proof {
            let upto = select@.take(i as int + 1);
            assert(upto.drop_last() == select@.take(i as int));
            assert(upto.last() == select[i as int]);
        }
        i += 1;
    }
    assert(select@.take(select.len() as int) == select@);
    columns
}

/// A supported input or output file type
#[derive(Debug, PartialEq, Eq, Clone, Copy, Structural)]
pub enum FileType {
    Avro,
    Csv,
    Json,
    Orc,
    Parquet,
    Xlsx,
    Yaml,
}

/// The file type that an extension in lower case names, if it names one.
pub open spec fn file_type_of(lowered: Seq<char>) -> Option<FileType> {
    if lowered == "json"@ {
        Some(FileType::Json)
    } else if lowered == "csv"@ {
        Some(FileType::Csv)
    } else if lowered == "parq"@ || lowered == "parquet"@ {
        Some(FileType::Parquet)
    } else if lowered == "orc"@ {
        Some(FileType::Orc)
    } else if lowered == "avro"@ {
        Some(FileType::Avro)
    } else if lowered == "xlsx"@ {
        Some(FileType::Xlsx)
    } else if lowered == "yaml"@ || lowered == "yml"@ {
        Some(FileType::Yaml)
    } else {
        None
    }
}

/// The file type of a path with the given extension: the type that the
/// extension names whatever its case, or else an error that holds the
/// extension as written; for a path without extension, an error that holds the
/// path.
pub open spec fn file_type_for(path: Seq<char>, extension: Option<Seq<char>>) -> Result<
    FileType,
    Seq<char>,
> {
    match extension {
        Some(e) => match file_type_of(lowercase(e)) {
            Some(t) => Ok(t),
            None => Err(e),
        },
        None => Err(path),
    }
}

/// What the path `s` may have for its extension: none, or a text that stands
/// in it as an extension does.
pub open spec fn may_be_extension(extension: Option<Seq<char>>, s: Seq<char>) -> bool {
    extension matches Some(e) ==> is_extension_of(e, s)
}

/// What a result says, with the text of the unknown file type in place of the
/// error.
pub open spec fn file_type_outcome(r: Result<FileType, Error>) -> Option<Result<FileType, Seq<char>>> {
    match r {
        Ok(t) => Some(Ok(t)),
        Err(Error::UnknownFileType(s)) => Some(Err(s@)),
        Err(_) => None,
    }
}

impl FileType {
    /// The file type that an extension names, given in lower case.
    pub fn of_lowercase_extension(lowered: &String) -> (t: Option<FileType>)
        ensures
            t == file_type_of(lowered@),
    {
        if text_is(lowered, "json") {
            Some(FileType::Json)
        } else if text_is(lowered, "csv") {
            Some(FileType::Csv)
        } else if text_is(lowered, "parq") || text_is(lowered, "parquet") {
            Some(FileType::Parquet)
        } else if text_is(lowered, "orc") {
            Some(FileType::Orc)
        } else if text_is(lowered, "avro") {
            Some(FileType::Avro)
        } else if text_is(lowered, "xlsx") {
            Some(FileType::Xlsx)
        } else if text_is(lowered, "yaml") || text_is(lowered, "yml") {
            Some(FileType::Yaml)
        } else {
            None
        }
    }

    /// The file type of a path whose extension is known.
    pub fn from_extension(path: &str, extension: Option<&str>) -> (r: Result<FileType, Error>)
        ensures
            file_type_outcome(r) == Some(
                file_type_for(
                    path@,
                    match extension {
                        Some(e) => Some(e@),
                        None => None,
                    },
                ),
            ),
    {
        match extension {
            Some(e) => {
                let lowered = str_to_lowercase(e);
                match FileType::of_lowercase_extension(&lowered) {
                    Some(t) => Ok(t),
                    None => Err(Error::UnknownFileType(String::from_str(e))),
                }
            },
            None => Err(Error::UnknownFileType(String::from_str(path))),
        }
    }

    /// Try to determine the FileType from a filename: by the extension of the
    /// path, whatever its case. A path without extension, and one whose
    /// extension names no supported type, is an error that holds the offending
    /// extension, or the whole path where it has none. Of a plain file name
    /// the extension is the text after its last dot.
    pub fn try_from(s: &str) -> (r: Result<FileType, Error>)
        ensures
            exists|extension: Option<Seq<char>>| #[trigger]
                may_be_extension(extension, s@) && file_type_outcome(r) == Some(
                    file_type_for(s@, extension),
                ),
            !s@.contains('.') ==> file_type_outcome(r) == Some(
                Err::<FileType, Seq<char>>(s@),
            ),
            is_plain_name(s@) ==> file_type_outcome(r) == Some(
                file_type_for(s@, name_extension(s@)),
            ),
    {
        let extension = path_extension(s);
        let ghost found = text_of(extension);
        let r = match &extension {
            Some(e) => FileType::from_extension(s, Some(e.as_str())),
            None => FileType::from_extension(s, None),
        };
        proof {
            assert(may_be_extension(found, s@));
            if !s@.contains('.') {
                if let Some(e) = found {
                    let at = choose|at: int|
                        0 < at && at + e.len() <= s@.len() && s@[at - 1] == '.'
                            && #[trigger] s@.subrange(at, at + e.len()) == e;
                    assert(s@.contains(s@[at - 1]));
                }
            }
        }
        r
    }
}

} // verus!
