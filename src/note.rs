use vstd::prelude::*;

verus! {

/// The abstract value of a stored note.
pub struct NoteView {
    pub id: int,
    pub tmdb_id: int,
    pub title: Seq<char>,
    pub comment: Seq<char>,
    pub user_name: Seq<char>,
    pub poster_path: Option<Seq<char>>,
    pub release_date: Option<Seq<char>>,
}

/// The abstract value of a create request.
pub struct CreateView {
    pub tmdb_id: int,
    pub title: Seq<char>,
    pub comment: Seq<char>,
    pub user_name: Seq<char>,
    pub poster_path: Option<Seq<char>>,
    pub release_date: Option<Seq<char>>,
}

/// The view of an optional free-text field; absence is kept as absence.
pub open spec fn opt_text(o: Option<String>) -> Option<Seq<char>> {
    match o {
        Some(s) => Some(s@),
        None => None,
    }
}

impl CreateView {
    /// The note that a create request becomes once the store gives it `id`.
    pub open spec fn with_id(self, id: int) -> NoteView {
        NoteView {
            id,
            tmdb_id: self.tmdb_id,
            title: self.title,
            comment: self.comment,
            user_name: self.user_name,
            poster_path: self.poster_path,
            release_date: self.release_date,
        }
    }
}

/// A movie note as stored and as returned to clients. `tmdb_id` names the
/// movie in an external catalog and need not be unique.
#[derive(Debug)]
pub struct Movie {
    pub id: i64,
    pub tmdb_id: i64,
    pub title: String,
    pub comment: String,
    pub user_name: String,
    pub poster_path: Option<String>,
    pub release_date: Option<String>,
}

/// The fields a client submits to create a note.
#[derive(Debug)]
pub struct CreateMovie {
    pub tmdb_id: i64,
    pub title: String,
    pub comment: String,
    pub user_name: String,
    pub poster_path: Option<String>,
    pub release_date: Option<String>,
}

impl View for Movie {
    type V = NoteView;

    open spec fn view(&self) -> NoteView {
        NoteView {
            id: self.id as int,
            tmdb_id: self.tmdb_id as int,
            title: self.title@,
            comment: self.comment@,
            user_name: self.user_name@,
            poster_path: opt_text(self.poster_path),
            release_date: opt_text(self.release_date),
        }
    }
}

impl View for CreateMovie {
    type V = CreateView;

    open spec fn view(&self) -> CreateView {
        CreateView {
            tmdb_id: self.tmdb_id as int,
            title: self.title@,
            comment: self.comment@,
            user_name: self.user_name@,
            poster_path: opt_text(self.poster_path),
            release_date: opt_text(self.release_date),
        }
    }
}

fn copy_text(o: &Option<String>) -> (r: Option<String>)
    ensures
        opt_text(r) == opt_text(*o),
{
    match o {
        Some(s) => Some(s.clone()),
        None => None,
    }
}

impl Movie {
    /// The note that `payload` becomes once the store has given it `id`:
    /// every submitted field is kept as it was sent.
    pub fn from_insert(payload: CreateMovie, id: i64) -> (r: Movie)
        ensures
            r@ == payload@.with_id(id as int),
    {
        Movie {
            id,
            tmdb_id: payload.tmdb_id,
            title: payload.title,
            comment: payload.comment,
            user_name: payload.user_name,
            poster_path: payload.poster_path,
            release_date: payload.release_date,
        }
    }

    /// A field-by-field copy of this note.
    pub fn duplicate(&self) -> (r: Movie)
        ensures
            r@ == self@,
    {
        Movie {
            id: self.id,
            tmdb_id: self.tmdb_id,
            title: self.title.clone(),
            comment: self.comment.clone(),
            user_name: self.user_name.clone(),
            poster_path: copy_text(&self.poster_path),
            release_date: copy_text(&self.release_date),
        }
    }
}

} // verus!
