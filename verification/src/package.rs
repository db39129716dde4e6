//! Driver packages: directories with an `.inf` file that names the driver.

use vstd::prelude::*;

use crate::error::{SmoketestError, SmoketestErrorView};
use crate::text::{self, chars_of, eq_ignore_ascii_case, slice_of, string_of};

verus! {

/// What stands at the path of a driver package.
#[derive(Debug)]
pub enum PackageDir {
    /// No directory.
    Missing,
    /// A directory that cannot be read, for this reason.
    Unreadable(String),
    /// A directory with entries of these names, in the order in which it lists them.
    Entries(Vec<String>),
}

/// What a [`PackageDir`] holds.
pub enum PackageView {
    Missing,
    Unreadable(Seq<char>),
    Entries(Seq<Seq<char>>),
}

impl View for PackageDir {
    type V = PackageView;

    open spec fn view(&self) -> PackageView {
        match self {
            PackageDir::Missing => PackageView::Missing,
            PackageDir::Unreadable(reason) => PackageView::Unreadable(reason@),
            PackageDir::Entries(names) => PackageView::Entries(text::texts(names@)),
        }
    }
}

/// The place of the dot before the extension of a file name, zero when it has none: the
/// last dot, unless the name begins with it.
pub open spec fn extension_dot(name: Seq<char>) -> nat
    decreases name.len(),
{
    if name.len() == 0 {
        0
    } else if name.last() == '.' {
        (name.len() - 1) as nat
    } else {
        extension_dot(name.drop_last())
    }
}

/// The extension of a file name: what follows the dot before it.
pub open spec fn extension_of(name: Seq<char>) -> Option<Seq<char>> {
    let dot = extension_dot(name);
    if dot > 0 {
        Some(name.skip(dot as int + 1))
    } else {
        None
    }
}

/// A file name without its extension.
pub open spec fn stem_of(name: Seq<char>) -> Seq<char> {
    let dot = extension_dot(name);
    if dot > 0 {
        name.take(dot as int)
    } else {
        name
    }
}

/// Whether a file of this name is an installation manifest.
pub open spec fn is_inf(name: Seq<char>) -> bool {
    extension_of(name) matches Some(ext) && text::equal_ignoring_case(ext, "inf"@)
}

/// The name of the driver: the stem of the first installation manifest.
pub open spec fn first_inf(names: Seq<Seq<char>>) -> Option<Seq<char>>
    decreases names.len(),
{
    if names.len() == 0 {
        None
    } else if is_inf(names[0]) {
        Some(stem_of(names[0]))
    } else {
        first_inf(names.drop_first())
    }
}

/// The error for a package that does not do, for the reason `reason`.
pub open spec fn invalid(reason: Seq<char>) -> SmoketestErrorView {
    SmoketestErrorView::PackageValidation { reason }
}

/// The name of the driver in the package at `path`, or what is wrong with the package.
pub open spec fn driver_in(path: Seq<char>, package: PackageView) -> Result<
    Seq<char>,
    SmoketestErrorView,
> {
    match package {
        PackageView::Missing => Err(invalid("driver package directory does not exist: "@ + path)),
        PackageView::Unreadable(reason) => Err(
            invalid("cannot read driver package directory "@ + path + ": "@ + reason),
        ),
        PackageView::Entries(names) => match first_inf(names) {
            Some(driver) => Ok(driver),
            None => Err(invalid("no .inf file found in driver package: "@ + path)),
        },
    }
}

fn find_extension_dot(name: &Vec<char>) -> (dot: usize)
    ensures
        dot == extension_dot(name@),
        dot == 0 || dot < name@.len(),
{
    let mut n: usize = name.len();
    assert(name@.take(n as int) =~= name@);
    while n > 0
        invariant
            n <= name@.len(),
            extension_dot(name@.take(n as int)) == extension_dot(name@),
        decreases n,
    {
        assert(name@.take(n as int).drop_last() =~= name@.take(n - 1));
        if name[n - 1] == '.' {
            return n - 1;
        }
        n = n - 1;
    }
    0
}

/// The name of the driver that the file `name` is the installation manifest of, `None`
/// when it is another file.
pub fn inf_driver(name: &str) -> (driver: Option<String>)
    ensures
        text::opt_text(driver) == (if is_inf(name@) {
            Some(stem_of(name@))
        } else {
            None
        }),
{
    let chars = chars_of(name);
    let len: usize = chars.len();
    let dot: usize = find_extension_dot(&chars);
    if dot == 0 {
        return None;
    }
    let ext = slice_of(&chars, dot + 1, len);
    assert(ext@ =~= chars@.skip(dot + 1));
    if !eq_ignore_ascii_case(&ext, &chars_of("inf")) {
        return None;
    }
    let stem = slice_of(&chars, 0, dot);
    assert(stem@ =~= chars@.take(dot as int));
    Some(string_of(&stem))
}

/// The name of the driver in the package at `path`, or what is wrong with the package.
pub fn package_driver(path: &str, package: &PackageDir) -> (driver: Result<String, SmoketestError>)
    ensures
        match driver {
            Ok(name) => driver_in(path@, package@) == Ok::<Seq<char>, SmoketestErrorView>(name@),
            Err(e) => driver_in(path@, package@) == Err::<Seq<char>, SmoketestErrorView>(e@),
        },
{
    match package {
        PackageDir::Missing => {
            let mut reason = "driver package directory does not exist: ".to_owned();
            reason.append(path);
            Err(SmoketestError::PackageValidation { reason })
        },
        PackageDir::Unreadable(why) => {
            let mut reason = "cannot read driver package directory ".to_owned();
            reason.append(path);
            reason.append(": ");
            reason.append(why.as_str());
            Err(SmoketestError::PackageValidation { reason })
        },
        PackageDir::Entries(names) => {
            let ghost all = text::texts(names@);
            let mut i: usize = 0;
            assert(all.skip(0) =~= all);
            while i < names.len()
                invariant
                    all == text::texts(names@),
                    package@ == PackageView::Entries(all),
                    i <= names@.len(),
                    first_inf(all.skip(i as int)) == first_inf(all),
                decreases names@.len() - i,
            {
                assert(all.skip(i as int).drop_first() =~= all.skip(i + 1));
                assert(all.skip(i as int)[0] == names@[i as int]@);
                if let Some(driver) = inf_driver(names[i].as_str()) {
                    return Ok(driver);
                }
                i = i + 1;
            }
            let mut reason = "no .inf file found in driver package: ".to_owned();
            reason.append(path);
            Err(SmoketestError::PackageValidation { reason })
        },
    }
}

// ---------------------------------------------------------------------------
// Laws
// ---------------------------------------------------------------------------

/// A package is accepted exactly when its directory can be read and holds an installation
/// manifest, whatever other files it holds.
pub proof fn law_package_needs_a_manifest(path: Seq<char>, package: PackageView)
    ensures
        driver_in(path, package) is Ok <==> (package matches PackageView::Entries(names)
            && exists|i: int| 0 <= i < names.len() && is_inf(#[trigger] names[i])),
{
    if let PackageView::Entries(names) = package {
        lemma_first_inf(names);
    }
}

proof fn lemma_first_inf(names: Seq<Seq<char>>)
    ensures
        first_inf(names) is Some <==> exists|i: int|
            0 <= i < names.len() && is_inf(#[trigger] names[i]),
    decreases names.len(),
{
    if names.len() > 0 {
        let rest = names.drop_first();
        lemma_first_inf(rest);
        if first_inf(names) is Some && !is_inf(names[0]) {
            let i = choose|i: int| 0 <= i < rest.len() && is_inf(#[trigger] rest[i]);
            assert(names[i + 1] == rest[i]);
        }
        if !is_inf(names[0]) && exists|i: int| 0 <= i < names.len() && is_inf(#[trigger] names[i]) {
            let i = choose|i: int| 0 <= i < names.len() && is_inf(#[trigger] names[i]);
            assert(rest[i - 1] == names[i]);
        }
    }
}

/// A stem, a dot and an extension without a dot are the parts of the name they make.
pub proof fn law_stem_and_extension_make_the_name(stem: Seq<char>, ext: Seq<char>)
    requires
        stem.len() > 0,
        forall|i: int| 0 <= i < ext.len() ==> #[trigger] ext[i] != '.',
    ensures
        extension_of(stem + seq!['.'] + ext) == Some(ext),
        stem_of(stem + seq!['.'] + ext) == stem,
{
    let name = stem + seq!['.'] + ext;
    lemma_extension_dot(stem, ext);
    assert(name.skip(stem.len() as int + 1) =~= ext);
    assert(name.take(stem.len() as int) =~= stem);
}

proof fn lemma_extension_dot(stem: Seq<char>, ext: Seq<char>)
    requires
        forall|i: int| 0 <= i < ext.len() ==> #[trigger] ext[i] != '.',
    ensures
        extension_dot(stem + seq!['.'] + ext) == stem.len(),
    decreases ext.len(),
{
    let name = stem + seq!['.'] + ext;
    if ext.len() == 0 {
        assert(name.last() == '.');
    } else {
        assert(name.last() == ext.last());
        assert(name.drop_last() =~= stem + seq!['.'] + ext.drop_last());
        lemma_extension_dot(stem, ext.drop_last());
    }
}

proof fn lemma_dot_is_last(name: Seq<char>)
    ensures
        extension_dot(name) > 0 ==> extension_dot(name) < name.len() && name[extension_dot(
            name,
        ) as int] == '.',
        forall|i: int| extension_dot(name) < i < name.len() ==> #[trigger] name[i] != '.',
    decreases name.len(),
{
    if name.len() > 0 && name.last() != '.' {
        let fewer = name.drop_last();
        lemma_dot_is_last(fewer);
        assert forall|i: int| extension_dot(name) < i < name.len() implies #[trigger] name[i]
            != '.' by {
            if i < name.len() - 1 {
                assert(name[i] == fewer[i]);
            }
        }
        if extension_dot(name) > 0 {
            assert(name[extension_dot(name) as int] == fewer[extension_dot(name) as int]);
        }
    }
}

/// A file is an installation manifest exactly when its name ends in `.inf`, in any case of
/// letters, with something before it; the driver has the name of what stands before.
pub proof fn law_manifests_end_in_inf(name: Seq<char>)
    ensures
        is_inf(name) <==> ({
            let n = name.len() as int;
            &&& n > 4
            &&& name[n - 4] == '.'
            &&& name[n - 3] == 'i' || name[n - 3] == 'I'
            &&& name[n - 2] == 'n' || name[n - 2] == 'N'
            &&& name[n - 1] == 'f' || name[n - 1] == 'F'
        }),
        is_inf(name) ==> stem_of(name) == name.take(name.len() - 4),
{
    reveal_strlit("inf");
    let inf = "inf"@;
    let n = name.len() as int;
    lemma_dot_is_last(name);
    if is_inf(name) {
        let dot = extension_dot(name) as int;
        let ext = name.skip(dot + 1);
        assert(ext.len() == 3);
        assert(text::lower_of(ext[0]) == text::lower_of(inf[0]));
        assert(text::lower_of(ext[1]) == text::lower_of(inf[1]));
        assert(text::lower_of(ext[2]) == text::lower_of(inf[2]));
        assert(dot == n - 4);
    }
    if n > 4 && name[n - 4] == '.' && (name[n - 3] == 'i' || name[n - 3] == 'I') && (name[n - 2]
        == 'n' || name[n - 2] == 'N') && (name[n - 1] == 'f' || name[n - 1] == 'F') {
        let stem = name.take(n - 4);
        let ext = name.skip(n - 3);
        assert(name =~= stem + seq!['.'] + ext);
        lemma_extension_dot(stem, ext);
        assert forall|i: int| 0 <= i < ext.len() implies text::lower_of(#[trigger] ext[i])
            == text::lower_of(inf[i]) by {
            if i == 0 {
            } else if i == 1 {
            } else {
            }
        }
        assert(is_inf(name));
    }
}

/// The first manifest that the directory lists names the driver.
pub proof fn law_first_manifest_names_the_driver(path: Seq<char>, names: Seq<Seq<char>>, k: int)
    requires
        0 <= k < names.len(),
        forall|i: int| 0 <= i < k ==> !is_inf(#[trigger] names[i]),
        is_inf(names[k]),
    ensures
        driver_in(path, PackageView::Entries(names)) == Ok::<Seq<char>, SmoketestErrorView>(
            names[k].take(names[k].len() - 4),
        ),
    decreases k,
{
    law_manifests_end_in_inf(names[k]);
    if k > 0 {
        assert(!is_inf(names[0]));
        let rest = names.drop_first();
        assert forall|i: int| 0 <= i < k - 1 implies !is_inf(#[trigger] rest[i]) by {
            assert(rest[i] == names[i + 1]);
        }
        law_first_manifest_names_the_driver(path, rest, k - 1);
    }
}

/// A package that is not there, that cannot be read or that holds no manifest is refused, and
/// the reason tells which and where.
pub proof fn law_bad_packages_are_refused(
    path: Seq<char>,
    why: Seq<char>,
    names: Seq<Seq<char>>,
)
    ensures
        driver_in(path, PackageView::Missing) == Err::<Seq<char>, SmoketestErrorView>(
            SmoketestErrorView::PackageValidation {
                reason: "driver package directory does not exist: "@ + path,
            },
        ),
        driver_in(path, PackageView::Unreadable(why)) == Err::<Seq<char>, SmoketestErrorView>(
            SmoketestErrorView::PackageValidation {
                reason: "cannot read driver package directory "@ + path + ": "@ + why,
            },
        ),
        (forall|i: int| 0 <= i < names.len() ==> !is_inf(#[trigger] names[i])) ==> driver_in(
            path,
            PackageView::Entries(names),
        ) == Err::<Seq<char>, SmoketestErrorView>(
            SmoketestErrorView::PackageValidation {
                reason: "no .inf file found in driver package: "@ + path,
            },
        ),
{
    lemma_first_inf(names);
}

} // verus!
