//! What is written of an Amplify application that was created.
use vstd::prelude::*;
use vstd::string::*;

verus! {

/// The identifier of a new application, as it is written to a file.
pub struct AppIdFile {
    pub path_name: String,
    pub text: String,
}

/// What is written of an application that was created: its identifier, to
/// the file `project_name` and `_app_id.txt`. Nothing is written where
/// Amplify tells no identifier.
pub fn create_app(project_name: &str, app_id: &Option<String>) -> (file: Option<AppIdFile>)
    ensures
        match *app_id {
            Some(id) => file is Some && file->0.path_name@ == project_name@ + "_app_id.txt"@
                && file->0.text@ == "The application identifier for the app named '"@
                + project_name@ + "' is:  "@ + id@,
            None => file is None,
        },
{
    match app_id {
        Some(id) => {
            let mut path_name = String::from_str(project_name);
            path_name.append("_app_id.txt");
            let mut text = String::from_str("The application identifier for the app named '");
            text.append(project_name);
            text.append("' is:  ");
            text.append(id.as_str());
            Some(AppIdFile { path_name, text })
        },
        None => None,
    }
}

} // verus!
