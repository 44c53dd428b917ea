//! Service-manager units that start and stop a package through the packaging
//! command line.
use vstd::prelude::*;
use crate::error::{Error, Fault};
use crate::package::{title_text, CompiledPackage, TitleView};
use crate::text::push_char;

verus! {

pub const SYSTEMD_SERVICE_ROOT: &'static str = "/etc/systemd/system";

/// Marks the start and the end of a variable in the unit template.
pub const UNIT_MARKER: char = '@';

pub const UNIT_TEMPLATE: &'static str = "
[Unit]
Description=Charon launcher for @PACKAGE_NAME@, version @PACKAGE_VERSION@

[Service]
ExecStart=/usr/bin/charon -r @REGISTRY_PATH@ launch @PACKAGE_NAME@ @PACKAGE_VERSION@ @VOLUME_ROOT@
ExecStop=/usr/bin/charon -r @REGISTRY_PATH@ stop @PACKAGE_NAME@ @PACKAGE_VERSION@ @VOLUME_ROOT@
Restart=always

[Install]
Alias=@PACKAGE_FILENAME@.service
";

/// The values a unit template can name.
pub ghost struct UnitValues {
    pub title: TitleView,
    pub registry_path: Seq<char>,
    pub volume_root: Seq<char>,
}

/// The value of a template variable, if the name is known.
pub open spec fn unit_variable(name: Seq<char>, vals: UnitValues) -> Option<Seq<char>> {
    if name == "PACKAGE_NAME"@ {
        Some(vals.title.name)
    } else if name == "PACKAGE_VERSION"@ {
        Some(vals.title.version)
    } else if name == "PACKAGE_FILENAME"@ {
        Some(title_text(vals.title))
    } else if name == "VOLUME_ROOT"@ {
        Some(vals.volume_root)
    } else if name == "REGISTRY_PATH"@ {
        Some(vals.registry_path)
    } else {
        None
    }
}

/// Where filling stands after a prefix of the template.
pub ghost struct Filling {
    pub in_variable: bool,
    pub name: Seq<char>,
    pub out: Seq<char>,
}

pub open spec fn fill_step(f: Filling, ch: char, vals: UnitValues) -> Result<Filling, Seq<char>> {
    if ch == UNIT_MARKER {
        if f.in_variable {
            match unit_variable(f.name, vals) {
                Some(v) => Ok(Filling { in_variable: false, name: Seq::empty(), out: f.out + v }),
                None => Err(f.name),
            }
        } else {
            Ok(Filling { in_variable: true, name: f.name, out: f.out })
        }
    } else if f.in_variable {
        Ok(Filling { in_variable: true, name: f.name.push(ch), out: f.out })
    } else {
        Ok(Filling { in_variable: false, name: f.name, out: f.out.push(ch) })
    }
}

pub open spec fn fill_scan(t: Seq<char>, vals: UnitValues) -> Result<Filling, Seq<char>>
    decreases t.len(),
{
    if t.len() == 0 {
        Ok(Filling { in_variable: false, name: Seq::empty(), out: Seq::empty() })
    } else {
        match fill_scan(t.drop_last(), vals) {
            Err(n) => Err(n),
            Ok(f) => fill_step(f, t.last(), vals),
        }
    }
}

/// The template with each `@NAME@` replaced by its value, or the first name
/// that is not known. A variable left open at the end is dropped.
pub open spec fn fill_template(t: Seq<char>, vals: UnitValues) -> Result<Seq<char>, Fault> {
    match fill_scan(t, vals) {
        Err(n) => Err(Fault::UnknownVariable(n)),
        Ok(f) => Ok(f.out),
    }
}

proof fn lemma_fill_fails_on_prefix(t: Seq<char>, n: int, vals: UnitValues)
    requires
        0 <= n <= t.len(),
        fill_scan(t.take(n), vals) is Err,
    ensures
        fill_scan(t, vals) == fill_scan(t.take(n), vals),
    decreases t.len() - n,
{
    if n < t.len() {
        assert(t.take(n + 1).drop_last() =~= t.take(n));
        lemma_fill_fails_on_prefix(t, n + 1, vals);
    } else {
        assert(t.take(n) =~= t);
    }
}

/// The unit that runs one compiled package.
#[derive(Debug)]
pub struct SystemdUnit {
    pub package: CompiledPackage,
    pub service_root: String,
}

impl SystemdUnit {
    /// A unit kept under `service_root`, or under the system's unit directory.
    pub fn new(package: CompiledPackage, service_root: Option<String>) -> (r: Self)
        ensures
            r.package == package,
            r.service_root@ == (match service_root {
                Some(s) => s@,
                None => SYSTEMD_SERVICE_ROOT@,
            }),
    {
        let service_root = match service_root {
            Some(s) => s,
            None => String::from_str(SYSTEMD_SERVICE_ROOT),
        };
        SystemdUnit { package, service_root }
    }

    /// `<name>-<version>.service`.
    pub fn service_name(&self) -> (r: String)
        ensures
            r@ == title_text(self.package.title@) + ".service"@,
    {
        self.package.title.to_string().concat(".service")
    }

    /// `<service root>/<name>-<version>.service`.
    pub fn filename(&self) -> (r: String)
        ensures
            r@ == self.service_root@ + "/"@ + title_text(self.package.title@) + ".service"@,
    {
        String::from_str(self.service_root.as_str()).concat("/").concat(
            self.package.title.to_string().as_str(),
        ).concat(".service")
    }

    /// The unit file's text: the template with the package's name, version and
    /// file name, the registry path and the volume root filled in.
    pub fn unit(&self, registry_path: String, volume_root: String) -> (r: Result<String, Error>)
        ensures
            match fill_template(
                UNIT_TEMPLATE@,
                UnitValues {
                    title: self.package.title@,
                    registry_path: registry_path@,
                    volume_root: volume_root@,
                },
            ) {
                Ok(t) => r matches Ok(o) && o@ == t,
                Err(f) => r matches Err(e) && e@ == f,
            },
    {
        let ghost vals = UnitValues {
            title: self.package.title@,
            registry_path: registry_path@,
            volume_root: volume_root@,
        };
        let template = UNIT_TEMPLATE;
        let package_name = String::from_str("PACKAGE_NAME");
        let package_version = String::from_str("PACKAGE_VERSION");
        let package_filename = String::from_str("PACKAGE_FILENAME");
        let volume_root_name = String::from_str("VOLUME_ROOT");
        let registry_path_name = String::from_str("REGISTRY_PATH");
        let mut out = String::new();
        let mut variable = String::new();
        let mut in_variable = false;
        let len = template.unicode_len();
        let mut i: usize = 0;
        assert(template@.take(0) =~= Seq::<char>::empty());
        while i < len
            invariant
                i <= len,
                len == template@.len(),
                template@ == UNIT_TEMPLATE@,
                vals.title == self.package.title@,
                vals.registry_path == registry_path@,
                vals.volume_root == volume_root@,
                package_name@ == "PACKAGE_NAME"@,
                package_version@ == "PACKAGE_VERSION"@,
                package_filename@ == "PACKAGE_FILENAME"@,
                volume_root_name@ == "VOLUME_ROOT"@,
                registry_path_name@ == "REGISTRY_PATH"@,
                fill_scan(template@.take(i as int), vals) == Ok::<Filling, Seq<char>>(
                    Filling { in_variable, name: variable@, out: out@ },
                ),
            decreases len - i,
        {
            let ch = template.get_char(i);
            assert(template@.take(i + 1).drop_last() =~= template@.take(i as int));
            assert(template@.take(i + 1).last() == ch);
            if ch == UNIT_MARKER {
                if in_variable {
                    if variable == package_name {
                        out.append(self.package.title.name.as_str());
                    } else if variable == package_version {
                        out.append(self.package.title.version.as_str());
                    } else if variable == package_filename {
                        out.append(self.package.title.to_string().as_str());
                    } else if variable == volume_root_name {
                        out.append(volume_root.as_str());
                    } else if variable == registry_path_name {
                        out.append(registry_path.as_str());
                    } else {
                        proof {
                            lemma_fill_fails_on_prefix(template@, i + 1, vals);
                        }
                        return Err(Error::UnknownVariable(variable));
                    }
                    variable = String::new();
                    in_variable = false;
                } else {
                    in_variable = true;
                }
            } else if in_variable {
                push_char(&mut variable, ch);
            } else {
                push_char(&mut out, ch);
            }
            i = i + 1;
        }
        assert(template@.take(len as int) =~= template@);
        Ok(out)
    }
}

} // verus!
