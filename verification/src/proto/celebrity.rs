use crate::proto::common::Slice;
use crate::proto::path_is;
use vstd::prelude::*;

verus! {

/// A celebrity asked for by its id or by its IMDb code.
#[derive(Clone, Debug)]
pub struct GetReq {
    pub id: Option<i64>,
    pub imdb: Option<String>,
}

/// The filters of a listing of celebrities: a search keyword, and a movie
/// the listing is restricted to.
#[derive(Clone, Debug)]
pub struct ListReq {
    pub keyword: Option<String>,
    pub movie_id: Option<i64>,
    pub slice: Option<Slice>,
}

/// A celebrity to store, with the movies they acted in, directed or wrote.
#[derive(Clone, Debug)]
pub struct PutReq {
    pub payload: Option<CelebrityPayload>,
    pub as_actor_movies_id: Vec<i64>,
    pub as_director_movies_id: Vec<i64>,
    pub as_writer_movies_id: Vec<i64>,
}

/// A celebrity to delete.
#[derive(Clone, Copy, Debug, PartialEq, Eq, Structural)]
pub struct DelReq {
    pub id: i64,
}

/// What is stored of a celebrity.
#[derive(Clone, Debug)]
pub struct CelebrityPayload {
    pub name: String,
    pub name_en: Option<String>,
    pub pic_url: Option<String>,
    pub gender: String,
    pub imdb: String,
    pub info: String,
}

/// A celebrity found.
#[derive(Clone, Debug)]
pub struct GetRes {
    pub id: i64,
    pub payload: Option<CelebrityPayload>,
}

/// The celebrities of a listing.
#[derive(Clone, Debug)]
pub struct ListRes {
    pub gets: Vec<GetRes>,
}

/// The methods of the celebrity service.
#[derive(Clone, Copy, Debug, PartialEq, Eq, Structural)]
pub enum CelebrityServiceMethod {
    GetCelebrity,
    ListCelebrities,
    ListActors,
    ListDirectors,
    ListWriters,
    PutCelebrity,
    DelCelebrity,
}

/// The path a method is called at.
pub open spec fn celebrity_method_path(m: CelebrityServiceMethod) -> &'static str {
    match m {
        CelebrityServiceMethod::GetCelebrity => "/movie.celebrity.v1.CelebrityService/GetCelebrity",
        CelebrityServiceMethod::ListCelebrities => "/movie.celebrity.v1.CelebrityService/ListCelebrities",
        CelebrityServiceMethod::ListActors => "/movie.celebrity.v1.CelebrityService/ListActors",
        CelebrityServiceMethod::ListDirectors => "/movie.celebrity.v1.CelebrityService/ListDirectors",
        CelebrityServiceMethod::ListWriters => "/movie.celebrity.v1.CelebrityService/ListWriters",
        CelebrityServiceMethod::PutCelebrity => "/movie.celebrity.v1.CelebrityService/PutCelebrity",
        CelebrityServiceMethod::DelCelebrity => "/movie.celebrity.v1.CelebrityService/DelCelebrity",
    }
}

/// Distinct methods are called at distinct paths (they differ in the first
/// letters of the method's name), so a method's path routes back to it.
pub proof fn lemma_celebrity_paths_distinct()
    ensures
        forall|m1: CelebrityServiceMethod, m2: CelebrityServiceMethod|
            m1 != m2 ==> (#[trigger] celebrity_method_path(m1))@ != (#[trigger] celebrity_method_path(m2))@,
{
    assert forall|m1: CelebrityServiceMethod, m2: CelebrityServiceMethod| m1 != m2 implies (#[trigger] celebrity_method_path(m1))@ != (#[trigger] celebrity_method_path(m2))@ by {
        reveal_strlit("/movie.celebrity.v1.CelebrityService/GetCelebrity");
        reveal_strlit("/movie.celebrity.v1.CelebrityService/ListCelebrities");
        reveal_strlit("/movie.celebrity.v1.CelebrityService/ListActors");
        reveal_strlit("/movie.celebrity.v1.CelebrityService/ListDirectors");
        reveal_strlit("/movie.celebrity.v1.CelebrityService/ListWriters");
        reveal_strlit("/movie.celebrity.v1.CelebrityService/PutCelebrity");
        reveal_strlit("/movie.celebrity.v1.CelebrityService/DelCelebrity");
        assert(celebrity_method_path(m1)@[37] != celebrity_method_path(m2)@[37] || celebrity_method_path(m1)@[41] != celebrity_method_path(m2)@[41]);
    }
}

/// Each method is called at `/`, the service's name, `/` and the method's
/// own name.
pub proof fn lemma_celebrity_paths_named()
    ensures
        celebrity_method_path(CelebrityServiceMethod::GetCelebrity)@ == "/"@ + CELEBRITY_SERVICE_NAME@ + "/"@ + "GetCelebrity"@,
        celebrity_method_path(CelebrityServiceMethod::ListCelebrities)@ == "/"@ + CELEBRITY_SERVICE_NAME@ + "/"@ + "ListCelebrities"@,
        celebrity_method_path(CelebrityServiceMethod::ListActors)@ == "/"@ + CELEBRITY_SERVICE_NAME@ + "/"@ + "ListActors"@,
        celebrity_method_path(CelebrityServiceMethod::ListDirectors)@ == "/"@ + CELEBRITY_SERVICE_NAME@ + "/"@ + "ListDirectors"@,
        celebrity_method_path(CelebrityServiceMethod::ListWriters)@ == "/"@ + CELEBRITY_SERVICE_NAME@ + "/"@ + "ListWriters"@,
        celebrity_method_path(CelebrityServiceMethod::PutCelebrity)@ == "/"@ + CELEBRITY_SERVICE_NAME@ + "/"@ + "PutCelebrity"@,
        celebrity_method_path(CelebrityServiceMethod::DelCelebrity)@ == "/"@ + CELEBRITY_SERVICE_NAME@ + "/"@ + "DelCelebrity"@,
{
    reveal_strlit("/movie.celebrity.v1.CelebrityService/GetCelebrity");
    reveal_strlit("/movie.celebrity.v1.CelebrityService/ListCelebrities");
    reveal_strlit("/movie.celebrity.v1.CelebrityService/ListActors");
    reveal_strlit("/movie.celebrity.v1.CelebrityService/ListDirectors");
    reveal_strlit("/movie.celebrity.v1.CelebrityService/ListWriters");
    reveal_strlit("/movie.celebrity.v1.CelebrityService/PutCelebrity");
    reveal_strlit("/movie.celebrity.v1.CelebrityService/DelCelebrity");
    reveal_strlit("movie.celebrity.v1.CelebrityService");
    reveal_strlit("/");
    reveal_strlit("GetCelebrity");
    reveal_strlit("ListCelebrities");
    reveal_strlit("ListActors");
    reveal_strlit("ListDirectors");
    reveal_strlit("ListWriters");
    reveal_strlit("PutCelebrity");
    reveal_strlit("DelCelebrity");
    assert(celebrity_method_path(CelebrityServiceMethod::GetCelebrity)@ =~= "/"@ + CELEBRITY_SERVICE_NAME@ + "/"@ + "GetCelebrity"@);
    assert(celebrity_method_path(CelebrityServiceMethod::ListCelebrities)@ =~= "/"@ + CELEBRITY_SERVICE_NAME@ + "/"@ + "ListCelebrities"@);
    assert(celebrity_method_path(CelebrityServiceMethod::ListActors)@ =~= "/"@ + CELEBRITY_SERVICE_NAME@ + "/"@ + "ListActors"@);
    assert(celebrity_method_path(CelebrityServiceMethod::ListDirectors)@ =~= "/"@ + CELEBRITY_SERVICE_NAME@ + "/"@ + "ListDirectors"@);
    assert(celebrity_method_path(CelebrityServiceMethod::ListWriters)@ =~= "/"@ + CELEBRITY_SERVICE_NAME@ + "/"@ + "ListWriters"@);
    assert(celebrity_method_path(CelebrityServiceMethod::PutCelebrity)@ =~= "/"@ + CELEBRITY_SERVICE_NAME@ + "/"@ + "PutCelebrity"@);
    assert(celebrity_method_path(CelebrityServiceMethod::DelCelebrity)@ =~= "/"@ + CELEBRITY_SERVICE_NAME@ + "/"@ + "DelCelebrity"@);
}

impl CelebrityServiceMethod {
    /// The path the method is called at.
    pub fn path(&self) -> (r: &'static str)
        ensures
            r == celebrity_method_path(*self),
    {
        match self {
            CelebrityServiceMethod::GetCelebrity => "/movie.celebrity.v1.CelebrityService/GetCelebrity",
            CelebrityServiceMethod::ListCelebrities => "/movie.celebrity.v1.CelebrityService/ListCelebrities",
            CelebrityServiceMethod::ListActors => "/movie.celebrity.v1.CelebrityService/ListActors",
            CelebrityServiceMethod::ListDirectors => "/movie.celebrity.v1.CelebrityService/ListDirectors",
            CelebrityServiceMethod::ListWriters => "/movie.celebrity.v1.CelebrityService/ListWriters",
            CelebrityServiceMethod::PutCelebrity => "/movie.celebrity.v1.CelebrityService/PutCelebrity",
            CelebrityServiceMethod::DelCelebrity => "/movie.celebrity.v1.CelebrityService/DelCelebrity",
        }
    }

    /// The method called at a path, when the service serves it.
    pub fn route(path: &str) -> (r: Option<CelebrityServiceMethod>)
        ensures
            r matches Some(m) ==> path@ == celebrity_method_path(m)@,
            r is None ==> forall|m: CelebrityServiceMethod|
                path@ != (#[trigger] celebrity_method_path(m))@,
            forall|m: CelebrityServiceMethod| path@ == (#[trigger] celebrity_method_path(m))@ ==> r == Some(m),
    {
        proof {
            lemma_celebrity_paths_distinct();
        }
        if path_is(path, CelebrityServiceMethod::GetCelebrity.path()) {
            Some(CelebrityServiceMethod::GetCelebrity)
        } else if path_is(path, CelebrityServiceMethod::ListCelebrities.path()) {
            Some(CelebrityServiceMethod::ListCelebrities)
        } else if path_is(path, CelebrityServiceMethod::ListActors.path()) {
            Some(CelebrityServiceMethod::ListActors)
        } else if path_is(path, CelebrityServiceMethod::ListDirectors.path()) {
            Some(CelebrityServiceMethod::ListDirectors)
        } else if path_is(path, CelebrityServiceMethod::ListWriters.path()) {
            Some(CelebrityServiceMethod::ListWriters)
        } else if path_is(path, CelebrityServiceMethod::PutCelebrity.path()) {
            Some(CelebrityServiceMethod::PutCelebrity)
        } else if path_is(path, CelebrityServiceMethod::DelCelebrity.path()) {
            Some(CelebrityServiceMethod::DelCelebrity)
        } else {
            proof {
                assert forall|m: CelebrityServiceMethod|
                    path@ != (#[trigger] celebrity_method_path(m))@ by {
                    match m {
                        CelebrityServiceMethod::GetCelebrity => {},
                        CelebrityServiceMethod::ListCelebrities => {},
                        CelebrityServiceMethod::ListActors => {},
                        CelebrityServiceMethod::ListDirectors => {},
                        CelebrityServiceMethod::ListWriters => {},
                        CelebrityServiceMethod::PutCelebrity => {},
                        CelebrityServiceMethod::DelCelebrity => {},
                    }
                }
            }
            None
        }
    }
}

/// The name of the celebrity service.
pub const CELEBRITY_SERVICE_NAME: &'static str = "movie.celebrity.v1.CelebrityService";

} // verus!
