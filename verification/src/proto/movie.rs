use crate::proto::common::Slice;
use crate::proto::path_is;
use vstd::prelude::*;

verus! {

/// A movie asked for by its id or by its IMDb code.
#[derive(Clone, Debug)]
pub struct GetReq {
    pub id: Option<i64>,
    pub imdb: Option<String>,
}

/// The filters of a listing of movies.
#[derive(Clone, Debug)]
pub struct ListReq {
    pub keyword: Option<String>,
    pub language: Option<String>,
    pub time_range: Option<TimeRange>,
    pub released_years: Option<i32>,
    pub actor_id: Option<i64>,
    pub category: Option<String>,
    pub country: Option<String>,
    pub director_id: Option<i64>,
    pub score_range: Option<ScoreRange>,
    pub writer_id: Option<i64>,
    pub slice: Option<Slice>,
}

/// A movie to store, with the people and the places it is linked to.
#[derive(Clone, Debug)]
pub struct PutReq {
    pub payload: Option<MoviePayload>,
    pub actors_id: Vec<i64>,
    pub categories: Vec<String>,
    pub countries: Vec<String>,
    pub directors_id: Vec<i64>,
    pub writers_id: Vec<i64>,
}

/// A movie to delete.
#[derive(Clone, Copy, Debug, PartialEq, Eq, Structural)]
pub struct DelReq {
    pub id: i64,
}

/// A range of running times, in hours.
#[derive(Clone, Copy, Debug, PartialEq, Eq, Structural)]
pub struct TimeRange {
    pub start: i32,
    pub end: i32,
}

/// A range of scores, from 1 to 5.
#[derive(Clone, Copy, Debug, PartialEq, Eq, Structural)]
pub struct ScoreRange {
    pub start: i32,
    pub end: i32,
}

/// A point in time: seconds since the Unix epoch and the nanoseconds after them.
#[derive(Clone, Copy, Debug, PartialEq, Eq, Structural)]
pub struct Timestamp {
    pub seconds: i64,
    pub nanos: i32,
}

/// What is stored of a movie.
#[derive(Clone, Debug)]
pub struct MoviePayload {
    pub title: String,
    pub pic_url: Option<String>,
    pub name: String,
    pub alias_name: Option<String>,
    pub language: String,
    pub time_length: i32,
    pub release_date: Option<Timestamp>,
    pub imdb: String,
    pub plot: String,
}

/// A movie found.
#[derive(Clone, Debug)]
pub struct GetRes {
    pub id: i64,
    pub payload: Option<MoviePayload>,
}

/// The movies of a listing.
#[derive(Clone, Debug)]
pub struct ListRes {
    pub gets: Vec<GetRes>,
}

/// The methods of the movie service.
#[derive(Clone, Copy, Debug, PartialEq, Eq, Structural)]
pub enum MovieServiceMethod {
    GetMovie,
    ListMovies,
    PutMovie,
    DelMovie,
}

/// The path a method is called at.
pub open spec fn movie_method_path(m: MovieServiceMethod) -> &'static str {
    match m {
        MovieServiceMethod::GetMovie => "/movie.movie.v1.MovieService/GetMovie",
        MovieServiceMethod::ListMovies => "/movie.movie.v1.MovieService/ListMovies",
        MovieServiceMethod::PutMovie => "/movie.movie.v1.MovieService/PutMovie",
        MovieServiceMethod::DelMovie => "/movie.movie.v1.MovieService/DelMovie",
    }
}

/// Distinct methods are called at distinct paths (they differ in the first
/// letters of the method's name), so a method's path routes back to it.
pub proof fn lemma_movie_paths_distinct()
    ensures
        forall|m1: MovieServiceMethod, m2: MovieServiceMethod|
            m1 != m2 ==> (#[trigger] movie_method_path(m1))@ != (#[trigger] movie_method_path(m2))@,
{
    assert forall|m1: MovieServiceMethod, m2: MovieServiceMethod| m1 != m2 implies (#[trigger] movie_method_path(m1))@ != (#[trigger] movie_method_path(m2))@ by {
        reveal_strlit("/movie.movie.v1.MovieService/GetMovie");
        reveal_strlit("/movie.movie.v1.MovieService/ListMovies");
        reveal_strlit("/movie.movie.v1.MovieService/PutMovie");
        reveal_strlit("/movie.movie.v1.MovieService/DelMovie");
        assert(movie_method_path(m1)@[29] != movie_method_path(m2)@[29]);
    }
}

/// Each method is called at `/`, the service's name, `/` and the method's
/// own name.
pub proof fn lemma_movie_paths_named()
    ensures
        movie_method_path(MovieServiceMethod::GetMovie)@ == "/"@ + MOVIE_SERVICE_NAME@ + "/"@ + "GetMovie"@,
        movie_method_path(MovieServiceMethod::ListMovies)@ == "/"@ + MOVIE_SERVICE_NAME@ + "/"@ + "ListMovies"@,
        movie_method_path(MovieServiceMethod::PutMovie)@ == "/"@ + MOVIE_SERVICE_NAME@ + "/"@ + "PutMovie"@,
        movie_method_path(MovieServiceMethod::DelMovie)@ == "/"@ + MOVIE_SERVICE_NAME@ + "/"@ + "DelMovie"@,
{
    reveal_strlit("/movie.movie.v1.MovieService/GetMovie");
    reveal_strlit("/movie.movie.v1.MovieService/ListMovies");
    reveal_strlit("/movie.movie.v1.MovieService/PutMovie");
    reveal_strlit("/movie.movie.v1.MovieService/DelMovie");
    reveal_strlit("movie.movie.v1.MovieService");
    reveal_strlit("/");
    reveal_strlit("GetMovie");
    reveal_strlit("ListMovies");
    reveal_strlit("PutMovie");
    reveal_strlit("DelMovie");
    assert(movie_method_path(MovieServiceMethod::GetMovie)@ =~= "/"@ + MOVIE_SERVICE_NAME@ + "/"@ + "GetMovie"@);
    assert(movie_method_path(MovieServiceMethod::ListMovies)@ =~= "/"@ + MOVIE_SERVICE_NAME@ + "/"@ + "ListMovies"@);
    assert(movie_method_path(MovieServiceMethod::PutMovie)@ =~= "/"@ + MOVIE_SERVICE_NAME@ + "/"@ + "PutMovie"@);
    assert(movie_method_path(MovieServiceMethod::DelMovie)@ =~= "/"@ + MOVIE_SERVICE_NAME@ + "/"@ + "DelMovie"@);
}

impl MovieServiceMethod {
    /// The path the method is called at.
    pub fn path(&self) -> (r: &'static str)
        ensures
            r == movie_method_path(*self),
    {
        match self {
            MovieServiceMethod::GetMovie => "/movie.movie.v1.MovieService/GetMovie",
            MovieServiceMethod::ListMovies => "/movie.movie.v1.MovieService/ListMovies",
            MovieServiceMethod::PutMovie => "/movie.movie.v1.MovieService/PutMovie",
            MovieServiceMethod::DelMovie => "/movie.movie.v1.MovieService/DelMovie",
        }
    }

    /// The method called at a path, when the service serves it.
    pub fn route(path: &str) -> (r: Option<MovieServiceMethod>)
        ensures
            r matches Some(m) ==> path@ == movie_method_path(m)@,
            r is None ==> forall|m: MovieServiceMethod| path@ != (#[trigger] movie_method_path(m))@,
            forall|m: MovieServiceMethod| path@ == (#[trigger] movie_method_path(m))@ ==> r == Some(m),
    {
        proof {
            lemma_movie_paths_distinct();
        }
        if path_is(path, MovieServiceMethod::GetMovie.path()) {
            Some(MovieServiceMethod::GetMovie)
        } else if path_is(path, MovieServiceMethod::ListMovies.path()) {
            Some(MovieServiceMethod::ListMovies)
        } else if path_is(path, MovieServiceMethod::PutMovie.path()) {
            Some(MovieServiceMethod::PutMovie)
        } else if path_is(path, MovieServiceMethod::DelMovie.path()) {
            Some(MovieServiceMethod::DelMovie)
        } else {
            proof {
                assert forall|m: MovieServiceMethod| path@ != (#[trigger] movie_method_path(m))@ by {
                    match m {
                        MovieServiceMethod::GetMovie => {},
                        MovieServiceMethod::ListMovies => {},
                        MovieServiceMethod::PutMovie => {},
                        MovieServiceMethod::DelMovie => {},
                    }
                }
            }
            None
        }
    }
}

/// The name of the movie service.
pub const MOVIE_SERVICE_NAME: &'static str = "movie.movie.v1.MovieService";

} // verus!
