use vstd::prelude::*;
use vstd::string::StringExecFns;
use crate::errors::AuthError;
use crate::strutil::str_eq;

verus! {

/// One course module, as the data layer hands it over.
#[derive(Debug, Clone, PartialEq, Eq)]
pub struct Module {
    pub id: String,
    pub name: String,
    pub term: String,
}

/// One announcement of a module.
#[derive(Debug, Clone, PartialEq, Eq)]
pub struct Announcement {
    pub title: String,
    pub description: String,
}

/// The payload of an API response envelope, once the surrounding program has
/// unwrapped `{"data": ...}`: an untyped list (empty when the endpoint has
/// nothing to report), a module list, or an announcement list.
pub enum ApiData {
    Empty(Vec<String>),
    Modules(Vec<Module>),
    Announcements(Vec<Announcement>),
}

/// Whether a module belongs to the given term.
pub open spec fn has_term(t: Seq<char>) -> spec_fn(Module) -> bool {
    |m: Module| m.term@ == t
}

/// The view of an optional term filter.
pub open spec fn opt_term_view(t: Option<&str>) -> Option<Seq<char>> {
    match t {
        None => None,
        Some(s) => Some(s@),
    }
}

/// The module list an envelope yields: every module, or with a term given
/// only the modules of that term. An untyped payload counts as empty only
/// when it is structurally an empty collection; a non-empty untyped payload,
/// like an announcement payload, matches no expected shape.
pub open spec fn modules_outcome(data: ApiData, term: Option<Seq<char>>) -> Result<
    Seq<Module>,
    AuthError,
> {
    match data {
        ApiData::Modules(ms) => Ok(
            match term {
                None => ms@,
                Some(t) => ms@.filter(has_term(t)),
            },
        ),
        ApiData::Empty(v) => if v@.len() == 0 {
            Ok(Seq::empty())
        } else {
            Err(AuthError::InvalidApiResponse)
        },
        ApiData::Announcements(_) => Err(AuthError::InvalidApiResponse),
    }
}

/// The announcement list an envelope yields: the announcements. An untyped
/// payload counts as empty only when it is structurally an empty collection;
/// a non-empty untyped payload, like a module payload, matches no expected
/// shape.
pub open spec fn announcements_outcome(data: ApiData) -> Result<Seq<Announcement>, AuthError> {
    match data {
        ApiData::Announcements(a) => Ok(a@),
        ApiData::Empty(v) => if v@.len() == 0 {
            Ok(Seq::empty())
        } else {
            Err(AuthError::InvalidApiResponse)
        },
        ApiData::Modules(_) => Err(AuthError::InvalidApiResponse),
    }
}

/// Reads a module-list envelope, keeping only the given term's modules when
/// a term is given (spec: `modules_outcome`).
pub fn select_modules(data: ApiData, current_term: Option<&str>) -> (r: Result<
    Vec<Module>,
    AuthError,
>)
    ensures
        (match r {
            Ok(v) => modules_outcome(data, opt_term_view(current_term)) == Ok::<
                Seq<Module>,
                AuthError,
            >(v@),
            Err(e) => modules_outcome(data, opt_term_view(current_term)) == Err::<
                Seq<Module>,
                AuthError,
            >(e),
        }),
{
    match data {
        ApiData::Modules(ms) => match current_term {
            None => Ok(ms),
            Some(t) => {
                let mut ms = ms;
                let ghost all = ms@;
                let mut out: Vec<Module> = Vec::new();
                let ghost mut i: int = 0;
                proof {
                    reveal(Seq::filter);
                    assert(all.take(0) =~= Seq::<Module>::empty());
                }
                while ms.len() > 0
                    invariant
                        0 <= i,
                        i + ms@.len() == all.len(),
                        ms@ == all.skip(i),
                        out@ == all.take(i).filter(has_term(t@)),
                    decreases ms@.len(),
                {
                    let m = ms.remove(0);
                    proof {
                        assert(all.skip(i)[0] == all[i]);
                        assert(m == all[i]);
                    }
                    let keep = str_eq(m.term.as_str(), t);
                    if keep {
                        out.push(m);
                    }
                    proof {
                        reveal(Seq::filter);
                        let t1 = all.take(i + 1);
                        assert(t1.drop_last() =~= all.take(i));
                        assert(t1.last() == all[i]);
                        assert(has_term(t@)(m) == (m.term@ == t@));
                        if keep {
                            assert(t1.filter(has_term(t@)) == t1.drop_last().filter(
                                has_term(t@),
                            ).push(t1.last()));
                        } else {
                            assert(t1.filter(has_term(t@)) == t1.drop_last().filter(has_term(t@)));
                        }
                        assert(out@ == t1.filter(has_term(t@)));
                        assert(ms@ =~= all.skip(i + 1));
                        i = i + 1;
                    }
                }
                proof {
                    assert(i == all.len());
                    assert(all.take(all.len() as int) =~= all);
                }
                Ok(out)
            },
        },
        ApiData::Empty(v) => if v.len() == 0 {
            Ok(Vec::new())
        } else {
            Err(AuthError::InvalidApiResponse)
        },
        ApiData::Announcements(_) => Err(AuthError::InvalidApiResponse),
    }
}

/// Reads an announcement-list envelope (spec: `announcements_outcome`).
pub fn select_announcements(data: ApiData) -> (r: Result<Vec<Announcement>, AuthError>)
    ensures
        (match r {
            Ok(v) => announcements_outcome(data) == Ok::<Seq<Announcement>, AuthError>(v@),
            Err(e) => announcements_outcome(data) == Err::<Seq<Announcement>, AuthError>(e),
        }),
{
    match data {
        ApiData::Announcements(a) => Ok(a),
        ApiData::Empty(v) => if v.len() == 0 {
            Ok(Vec::new())
        } else {
            Err(AuthError::InvalidApiResponse)
        },
        ApiData::Modules(_) => Err(AuthError::InvalidApiResponse),
    }
}

/// The API path of a module's announcements, archived or current, sorted by
/// display date ascending.
pub fn announcements_path(module_id: &str, archived: bool) -> (r: String)
    ensures
        r@ == "/announcement/"@ + (if archived {
            "Archived"@
        } else {
            "NonArchived"@
        }) + "/"@ + module_id@ + "?sortby=displayFrom%20ASC"@,
{
    let mut path = String::from_str("/announcement/");
    if archived {
        path.append("Archived");
    } else {
        path.append("NonArchived");
    }
    path.append("/");
    path.append(module_id);
    path.append("?sortby=displayFrom%20ASC");
    path
}

} // verus!
