use vstd::prelude::*;
use crate::error::{ApiError, Invalid};
use crate::role::{requested_role, UserRole};
use crate::text::{lowercase_text, lowercased, safe_file_name, sanitize_filename, trim_text, trimmed};
use crate::users::RegisterUser;
use crate::vehicles::CreateVehicle;

verus! {

/// The parts of a registration form.
#[derive(Clone, Copy, Debug, PartialEq, Eq, Structural)]
pub enum RegistrationField {
    Name,
    Email,
    Password,
    Role,
    ProfileImage,
    Other,
}

/// The parts of a vehicle form.
#[derive(Clone, Copy, Debug, PartialEq, Eq, Structural)]
pub enum VehicleField {
    Make,
    Model,
    Year,
    Files,
    Other,
}

/// A field name as the forms compare it: trimmed, then lower-cased.
pub open spec fn field_key(name: Seq<char>) -> Seq<char> {
    lowercased(trimmed(name))
}

pub open spec fn registration_field_of(key: Seq<char>) -> RegistrationField {
    if key == seq!['n', 'a', 'm', 'e'] {
        RegistrationField::Name
    } else if key == seq!['e', 'm', 'a', 'i', 'l'] {
        RegistrationField::Email
    } else if key == seq!['p', 'a', 's', 's', 'w', 'o', 'r', 'd'] {
        RegistrationField::Password
    } else if key == seq!['r', 'o', 'l', 'e'] {
        RegistrationField::Role
    } else if key == seq![
        'p',
        'r',
        'o',
        'f',
        'i',
        'l',
        'e',
        '_',
        'i',
        'm',
        'a',
        'g',
        'e',
    ] {
        RegistrationField::ProfileImage
    } else {
        RegistrationField::Other
    }
}

pub open spec fn vehicle_field_of(key: Seq<char>) -> VehicleField {
    if key == seq!['m', 'a', 'k', 'e'] {
        VehicleField::Make
    } else if key == seq!['m', 'o', 'd', 'e', 'l'] {
        VehicleField::Model
    } else if key == seq!['y', 'e', 'a', 'r'] {
        VehicleField::Year
    } else if key == seq!['f', 'i', 'l', 'e', 's'] || key == seq!['f', 'i', 'l', 'e', 's', '[', ']']
        || key == seq!['f', 'i', 'l', 'e'] {
        VehicleField::Files
    } else {
        VehicleField::Other
    }
}

fn text_is(s: &String, lit: &str) -> (r: bool)
    ensures
        r == (s@ == lit@),
{
    *s == String::from_str(lit)
}

fn field_key_of(name: &str) -> (r: String)
    ensures
        r@ == field_key(name@),
{
    let t = trim_text(name);
    lowercase_text(t.as_str())
}

/// Which part of a registration form a field name stands for.
pub fn registration_field(name: &str) -> (r: RegistrationField)
    ensures
        r == registration_field_of(field_key(name@)),
{
    let key = field_key_of(name);
    proof {
        reveal_strlit("name");
        assert("name"@ =~= seq!['n', 'a', 'm', 'e']);
        reveal_strlit("email");
        assert("email"@ =~= seq!['e', 'm', 'a', 'i', 'l']);
        reveal_strlit("password");
        assert("password"@ =~= seq!['p', 'a', 's', 's', 'w', 'o', 'r', 'd']);
        reveal_strlit("role");
        assert("role"@ =~= seq!['r', 'o', 'l', 'e']);
        reveal_strlit("profile_image");
        assert("profile_image"@ =~= seq!['p', 'r', 'o', 'f', 'i', 'l', 'e', '_', 'i', 'm', 'a', 'g', 'e']);
    }
    if text_is(&key, "name") {
        RegistrationField::Name
    } else if text_is(&key, "email") {
        RegistrationField::Email
    } else if text_is(&key, "password") {
        RegistrationField::Password
    } else if text_is(&key, "role") {
        RegistrationField::Role
    } else if text_is(&key, "profile_image") {
        RegistrationField::ProfileImage
    } else {
        RegistrationField::Other
    }
}

/// Which part of a vehicle form a field name stands for.
pub fn vehicle_field(name: &str) -> (r: VehicleField)
    ensures
        r == vehicle_field_of(field_key(name@)),
{
    let key = field_key_of(name);
    proof {
        reveal_strlit("make");
        assert("make"@ =~= seq!['m', 'a', 'k', 'e']);
        reveal_strlit("model");
        assert("model"@ =~= seq!['m', 'o', 'd', 'e', 'l']);
        reveal_strlit("year");
        assert("year"@ =~= seq!['y', 'e', 'a', 'r']);
        reveal_strlit("files");
        assert("files"@ =~= seq!['f', 'i', 'l', 'e', 's']);
        reveal_strlit("files[]");
        assert("files[]"@ =~= seq!['f', 'i', 'l', 'e', 's', '[', ']']);
        reveal_strlit("file");
        assert("file"@ =~= seq!['f', 'i', 'l', 'e']);
    }
    if text_is(&key, "make") {
        VehicleField::Make
    } else if text_is(&key, "model") {
        VehicleField::Model
    } else if text_is(&key, "year") {
        VehicleField::Year
    } else if text_is(&key, "files") || text_is(&key, "files[]") || text_is(&key, "file") {
        VehicleField::Files
    } else {
        VehicleField::Other
    }
}

/// The role a registration form's role text asks for: `admin` in any case
/// gives `Admin`, anything else `User`.
pub fn parse_requested_role(text: &str) -> (r: UserRole)
    ensures
        r == requested_role(lowercased(text@)),
{
    let lowered = lowercase_text(text);
    proof {
        reveal_strlit("admin");
        assert("admin"@ =~= seq!['a', 'd', 'm', 'i', 'n']);
    }
    if text_is(&lowered, "admin") {
        UserRole::Admin
    } else {
        UserRole::User
    }
}

/// A registration form as its fields arrive.
#[derive(Debug)]
pub struct RegistrationForm {
    pub name: String,
    pub email: String,
    pub password: String,
    pub role: Option<UserRole>,
    pub profile_image: Option<String>,
}

impl RegistrationForm {
    /// A form with nothing filled in.
    pub fn new() -> (r: RegistrationForm)
        ensures
            r.name@.len() == 0,
            r.email@.len() == 0,
            r.password@.len() == 0,
            r.role is None,
            r.profile_image is None,
    {
        RegistrationForm {
            name: String::new(),
            email: String::new(),
            password: String::new(),
            role: None,
            profile_image: None,
        }
    }

    /// Takes the text of a field: name, email and password are trimmed; the
    /// role is read by `parse_requested_role`; other fields are ignored.
    pub fn accept_text(&mut self, field: RegistrationField, text: &str)
        ensures
            final(self).name@ == if field == RegistrationField::Name {
                trimmed(text@)
            } else {
                old(self).name@
            },
            final(self).email@ == if field == RegistrationField::Email {
                trimmed(text@)
            } else {
                old(self).email@
            },
            final(self).password@ == if field == RegistrationField::Password {
                trimmed(text@)
            } else {
                old(self).password@
            },
            final(self).role == if field == RegistrationField::Role {
                Some(requested_role(lowercased(text@)))
            } else {
                old(self).role
            },
            final(self).profile_image == old(self).profile_image,
    {
        match field {
            RegistrationField::Name => {
                self.name = trim_text(text);
            },
            RegistrationField::Email => {
                self.email = trim_text(text);
            },
            RegistrationField::Password => {
                self.password = trim_text(text);
            },
            RegistrationField::Role => {
                self.role = Some(parse_requested_role(text));
            },
            _ => {},
        }
    }

    /// Records where the profile image was stored.
    pub fn accept_profile_image(&mut self, path: String)
        ensures
            final(self).profile_image == Some(path),
            final(self).name == old(self).name,
            final(self).email == old(self).email,
            final(self).password == old(self).password,
            final(self).role == old(self).role,
    {
        self.profile_image = Some(path);
    }

    /// The registration the form asks for, with the stored image path; name,
    /// email and password are all required.
    pub fn finish(self) -> (r: Result<(RegisterUser, Option<String>), ApiError>)
        ensures
            (self.name@.len() == 0 || self.email@.len() == 0 || self.password@.len() == 0) <==> r
                is Err,
            r is Err ==> r->Err_0 == ApiError::Validation(Invalid::MissingFields),
            r is Ok ==> ({
                let (u, image) = r->Ok_0;
                u.name == self.name && u.email == self.email && u.password == self.password
                    && u.role == self.role && image == self.profile_image
            }),
    {
        if self.name.unicode_len() == 0 || self.email.unicode_len() == 0
            || self.password.unicode_len() == 0 {
            return Err(ApiError::Validation(Invalid::MissingFields));
        }
        Ok(
            (
                RegisterUser {
                    name: self.name,
                    email: self.email,
                    password: self.password,
                    role: self.role,
                },
                self.profile_image,
            ),
        )
    }
}

/// A vehicle form as its fields arrive.
#[derive(Debug)]
pub struct VehicleForm {
    pub make: String,
    pub model: String,
    pub year: String,
    pub files: Vec<String>,
}

impl VehicleForm {
    /// A form with nothing filled in.
    pub fn new() -> (r: VehicleForm)
        ensures
            r.make@.len() == 0,
            r.model@.len() == 0,
            r.year@.len() == 0,
            r.files@.len() == 0,
    {
        VehicleForm { make: String::new(), model: String::new(), year: String::new(), files: Vec::new() }
    }

    /// Takes the trimmed text of make, model or year; ignores other fields.
    pub fn accept_text(&mut self, field: VehicleField, text: &str)
        ensures
            final(self).make@ == if field == VehicleField::Make {
                trimmed(text@)
            } else {
                old(self).make@
            },
            final(self).model@ == if field == VehicleField::Model {
                trimmed(text@)
            } else {
                old(self).model@
            },
            final(self).year@ == if field == VehicleField::Year {
                trimmed(text@)
            } else {
                old(self).year@
            },
            final(self).files == old(self).files,
    {
        match field {
            VehicleField::Make => {
                self.make = trim_text(text);
            },
            VehicleField::Model => {
                self.model = trim_text(text);
            },
            VehicleField::Year => {
                self.year = trim_text(text);
            },
            _ => {},
        }
    }

    /// Adds the path of a stored file, after those already there.
    pub fn accept_file(&mut self, path: String)
        ensures
            final(self).files@ == old(self).files@.push(path),
            final(self).make == old(self).make,
            final(self).model == old(self).model,
            final(self).year == old(self).year,
    {
        self.files.push(path);
    }

    /// The fields and files of a new vehicle; make, model and year are all
    /// required.
    pub fn finish_new(self) -> (r: Result<(CreateVehicle, Vec<String>), ApiError>)
        ensures
            (self.make@.len() == 0 || self.model@.len() == 0 || self.year@.len() == 0) <==> r
                is Err,
            r is Err ==> r->Err_0 == ApiError::Validation(Invalid::MissingFields),
            r is Ok ==> ({
                let (v, files) = r->Ok_0;
                v.make == self.make && v.model == self.model && v.year == self.year && files
                    == self.files
            }),
    {
        if self.make.unicode_len() == 0 || self.model.unicode_len() == 0
            || self.year.unicode_len() == 0 {
            return Err(ApiError::Validation(Invalid::MissingFields));
        }
        Ok((CreateVehicle { make: self.make, model: self.model, year: self.year }, self.files))
    }

    /// The fields and files of an update; empty texts leave fields as they are.
    pub fn finish_edit(self) -> (r: (CreateVehicle, Vec<String>))
        ensures
            r.0.make == self.make,
            r.0.model == self.model,
            r.0.year == self.year,
            r.1 == self.files,
    {
        (CreateVehicle { make: self.make, model: self.model, year: self.year }, self.files)
    }
}

/// Where an uploaded file is stored: `dir/unique_name`, the name made safe,
/// `file` when the upload carries none.
pub open spec fn upload_path_of(dir: Seq<char>, unique: Seq<char>, name: Option<Seq<char>>) -> Seq<
    char,
> {
    dir + seq!['/'] + unique + seq!['_'] + safe_file_name(
        match name {
            Some(n) => n,
            None => seq!['f', 'i', 'l', 'e'],
        },
    )
}

/// Builds the stored path of an upload.
pub fn upload_path(dir: &str, unique: &str, file_name: Option<&str>) -> (r: String)
    ensures
        r@ == upload_path_of(
            dir@,
            unique@,
            match file_name {
                Some(n) => Some(n@),
                None => None,
            },
        ),
{
    proof {
        reveal_strlit("file");
        assert("file"@ =~= seq!['f', 'i', 'l', 'e']);
        reveal_strlit("/");
        assert("/"@ =~= seq!['/']);
        reveal_strlit("_");
        assert("_"@ =~= seq!['_']);
    }
    let safe = match file_name {
        Some(n) => sanitize_filename(n),
        None => sanitize_filename("file"),
    };
    let mut path = String::from_str(dir);
    path.append("/");
    path.append(unique);
    path.append("_");
    path.append(safe.as_str());
    path
}

} // verus!
