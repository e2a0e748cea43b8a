//! Which files of the models directory hold models, and the names of those models.

use vstd::prelude::*;
use vstd::string::StringExecFns;
use crate::text::{file_name_parts, file_name_parts_of, str_eq};

verus! {

/// The model a directory entry holds: a regular file with extension `yaml` or `yml`
/// holds the model named after its stem; anything else holds no model.
pub open spec fn model_name_spec(file_name: Seq<char>, is_file: bool) -> Option<Seq<char>> {
    let (stem, extension) = file_name_parts(file_name);
    if is_file && (extension == Some("yaml"@) || extension == Some("yml"@)) {
        Some(stem)
    } else {
        None
    }
}

/// A file named `<stem>.yaml` or `<stem>.yml` holds the model `<stem>` when the stem is
/// not empty, and nothing but a regular file holds a model.
pub proof fn lemma_model_file_names(stem: Seq<char>, file_name: Seq<char>)
    ensures
        stem.len() > 0 ==> model_name_spec(stem + ".yaml"@, true) == Some(stem),
        stem.len() > 0 ==> model_name_spec(stem + ".yml"@, true) == Some(stem),
        model_name_spec(file_name, false) is None,
{
    reveal_strlit(".yaml");
    reveal_strlit("yaml");
    reveal_strlit(".yml");
    reveal_strlit("yml");
    if stem.len() > 0 {
        lemma_stem_and_extension(stem, "yaml"@);
        assert(stem + seq!['.'] + "yaml"@ =~= stem + ".yaml"@);
        lemma_stem_and_extension(stem, "yml"@);
        assert(stem + seq!['.'] + "yml"@ =~= stem + ".yml"@);
    }
}

/// Only regular files named `<model>.yaml` or `<model>.yml`, with a non-empty model name,
/// hold a model, and the model is named after that stem.
pub proof fn lemma_model_files_are_yaml(file_name: Seq<char>, is_file: bool)
    ensures
        model_name_spec(file_name, is_file) matches Some(m) ==> {
            &&& is_file
            &&& m.len() > 0
            &&& (file_name =~= m + ".yaml"@ || file_name =~= m + ".yml"@)
        },
{
    reveal_strlit(".yaml");
    reveal_strlit("yaml");
    reveal_strlit(".yml");
    reveal_strlit("yml");
    if model_name_spec(file_name, is_file) is Some {
        let k = choose|k: int| crate::text::is_last_index_of(file_name, '.', k) && k > 0;
        let ext = file_name.subrange(k + 1, file_name.len() as int);
        assert(file_name =~= file_name.subrange(0, k) + seq!['.'] + ext);
        assert(".yaml"@ =~= seq!['.'] + "yaml"@);
        assert(".yml"@ =~= seq!['.'] + "yml"@);
    }
}

/// A non-empty stem, a `.` and a non-empty extension without `.` part back into that stem and
/// that extension.
pub proof fn lemma_stem_and_extension(stem: Seq<char>, extension: Seq<char>)
    requires
        stem.len() > 0,
        extension.len() > 0,
        !extension.contains('.'),
    ensures
        file_name_parts(stem + seq!['.'] + extension) == (stem, Some(extension)),
{
    let name = stem + seq!['.'] + extension;
    let i = stem.len() as int;
    assert(name[i] == '.');
    assert forall|j: int| i < j < name.len() implies name[j] != '.' by {
        assert(name[j] == extension[j - i - 1]);
    }
    assert(crate::text::is_last_index_of(name, '.', i));
    assert(name != seq!['.', '.']) by {
        if name == seq!['.', '.'] {
            assert(name.len() == 2);
            assert(stem.len() == 1);
            assert(extension.len() == 0);
        }
    }
    let k = choose|k: int| crate::text::is_last_index_of(name, '.', k) && k > 0;
    crate::text::lemma_last_index_unique(name, '.', i, k);
    assert(name.subrange(0, i) =~= stem);
    assert(name.subrange(i + 1, name.len() as int) =~= extension);
}

/// The name of the model the directory entry `file_name` holds, if any.
pub fn model_name(file_name: &str, is_file: bool) -> (res: Option<String>)
    ensures
        match res {
            Some(m) => model_name_spec(file_name@, is_file) == Some(m@),
            None => model_name_spec(file_name@, is_file) is None,
        },
{
    if !is_file {
        return None;
    }
    let (stem, extension) = file_name_parts_of(file_name);
    match extension {
        Some(ext) => {
            if str_eq(ext, "yaml") || str_eq(ext, "yml") {
                Some(String::from_str(stem))
            } else {
                None
            }
        },
        None => None,
    }
}

} // verus!
