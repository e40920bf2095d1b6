//! What can be told of a target from its build settings: the platform it is
//! built for, and the names of its configurations.
//!
//! The platform follows from the build setting `SDKROOT`. It is looked for in
//! the configurations of the target; then in the configurations, anywhere in
//! the collection, that are based on the same file as one of these; then in
//! the same way in the configurations of each project. The first value found
//! is taken, so it does not matter whether a value comes more than once.
use vstd::prelude::*;
use crate::collection::PBXObjectCollection;
use crate::configuration::{
    build_configuration_view, build_configurations_view, configuration_list_view,
    XCBuildConfiguration, XCBuildConfigurationView, XCConfigurationList, XCConfigurationListView,
};
use crate::platform::{PBXTargetPlatform, platform_of_sdk_root};
use crate::project::{PBXProjectView, project_view, projects_view};
use crate::queries::{all_projects, build_configurations_based_on};
use crate::target::{PBXTarget, PBXTargetView};
use crate::text::{opt_text, texts_view};
use crate::value::{field_string, PBXHashMapView};

verus! {

/// The `SDKROOT` setting of the first of `configurations`, from `from` on, that
/// has one.
pub open spec fn first_sdkroot(
    configurations: Seq<XCBuildConfigurationView>,
    from: int,
) -> Option<Seq<char>>
    decreases configurations.len() - from,
{
    if from < 0 || from >= configurations.len() {
        None
    } else {
        match field_string(configurations[from].build_settings, "SDKROOT"@) {
            Some(s) => Some(s),
            None => first_sdkroot(configurations, from + 1),
        }
    }
}

/// The `SDKROOT` setting that the configuration `c` has from its base: that of
/// the first configuration of `objects` that is based on the same file and
/// has one.
pub open spec fn inherited_sdkroot(
    objects: PBXHashMapView,
    c: XCBuildConfigurationView,
) -> Option<Seq<char>> {
    match c.base_configuration {
        Some(base) => first_sdkroot(build_configurations_based_on(objects, base.id), 0),
        None => None,
    }
}

/// The `SDKROOT` setting that the first of `configurations`, from `from` on,
/// has from its base.
pub open spec fn first_inherited_sdkroot(
    objects: PBXHashMapView,
    configurations: Seq<XCBuildConfigurationView>,
    from: int,
) -> Option<Seq<char>>
    decreases configurations.len() - from,
{
    if from < 0 || from >= configurations.len() {
        None
    } else {
        match inherited_sdkroot(objects, configurations[from]) {
            Some(s) => Some(s),
            None => first_inherited_sdkroot(objects, configurations, from + 1),
        }
    }
}

/// The `SDKROOT` setting of a configuration list: the first that one of its
/// configurations has itself, else the first that one of them has from its
/// base.
pub open spec fn sdkroot_of(
    objects: PBXHashMapView,
    list: XCConfigurationListView,
) -> Option<Seq<char>> {
    match first_sdkroot(list.build_configurations, 0) {
        Some(s) => Some(s),
        None => first_inherited_sdkroot(objects, list.build_configurations, 0),
    }
}

/// The `SDKROOT` setting of the first of `projects`, from `from` on, whose
/// configuration list has one.
pub open spec fn first_project_sdkroot(
    objects: PBXHashMapView,
    projects: Seq<PBXProjectView>,
    from: int,
) -> Option<Seq<char>>
    decreases projects.len() - from,
{
    if from < 0 || from >= projects.len() {
        None
    } else {
        match sdkroot_of(objects, projects[from].build_configuration_list) {
            Some(s) => Some(s),
            None => first_project_sdkroot(objects, projects, from + 1),
        }
    }
}

/// The `SDKROOT` setting that holds for a target: that of its own
/// configuration list, else that of the first project that has one.
pub open spec fn target_sdkroot(
    objects: PBXHashMapView,
    target: PBXTargetView,
) -> Option<Seq<char>> {
    let own = match target.build_configuration_list {
        Some(list) => sdkroot_of(objects, list),
        None => None,
    };
    match own {
        Some(s) => Some(s),
        None => first_project_sdkroot(objects, all_projects(objects), 0),
    }
}

/// The platform of a target: that of its `SDKROOT` setting, or `Unknown` when
/// no setting is found.
pub open spec fn platform_for(objects: PBXHashMapView, target: PBXTargetView) -> PBXTargetPlatform {
    match target_sdkroot(objects, target) {
        Some(s) => platform_of_sdk_root(s),
        None => PBXTargetPlatform::Unknown,
    }
}

/// A target whose configurations have no `SDKROOT` setting of their own has the
/// platform of the first setting that one of them has from its base.
pub proof fn lemma_platform_from_shared_base(
    objects: PBXHashMapView,
    target: PBXTargetView,
    list: XCConfigurationListView,
    sdkroot: Seq<char>,
)
    requires
        target.build_configuration_list == Some(list),
        first_sdkroot(list.build_configurations, 0) is None,
        first_inherited_sdkroot(objects, list.build_configurations, 0) == Some(sdkroot),
    ensures
        platform_for(objects, target) == platform_of_sdk_root(sdkroot),
        sdkroot == "iphoneos"@ ==> platform_for(objects, target) == PBXTargetPlatform::IOS,
{
}

/// The names of the configurations of a target, in order.
pub open spec fn configuration_names(target: PBXTargetView) -> Seq<Seq<char>> {
    match target.build_configuration_list {
        Some(list) => Seq::new(
            list.build_configurations.len(),
            |i: int| list.build_configurations[i].name,
        ),
        None => Seq::empty(),
    }
}

/// What can be told of a target.
#[derive(Debug)]
pub struct PBXTargetInfo {
    /// The platform of the target.
    pub platform: PBXTargetPlatform,
    /// The names of the configurations of the target.
    pub configurations: Vec<String>,
}

/// The `SDKROOT` setting of the first of `configurations` that has one.
fn sdkroot_among(configurations: &Vec<XCBuildConfiguration>) -> (r: Option<String>)
    ensures
        opt_text(r) == first_sdkroot(build_configurations_view(configurations@), 0),
{
    let mut i: usize = 0;
    while i < configurations.len()
        invariant
            i <= configurations.len(),
            first_sdkroot(build_configurations_view(configurations@), 0) == first_sdkroot(
                build_configurations_view(configurations@),
                i as int,
            ),
        decreases configurations.len() - i,
    {
        assert(build_configurations_view(configurations@)[i as int] == build_configuration_view(
            configurations@[i as int],
        ));
        match configurations[i].build_settings.get_string("SDKROOT") {
            Some(s) => {
                return Some(s.clone());
            },
            None => {},
        }
        i += 1;
    }
    None
}

impl<'a> XCConfigurationList<'a> {
    /// The `SDKROOT` setting of this list: the first that one of its
    /// configurations has itself; else the first that a configuration of
    /// `objects` has which is based on the same file as one of them; nothing
    /// when neither is found.
    pub fn extract_sdkroot_from_children(
        &self,
        objects: &PBXObjectCollection,
    ) -> (r: Option<String>)
        ensures
            opt_text(r) == sdkroot_of(objects@, self@),
    {
        assert(self@.build_configurations == build_configurations_view(self.build_configurations@));
        match sdkroot_among(&self.build_configurations) {
            Some(s) => {
                return Some(s);
            },
            None => {},
        }
        let mut i: usize = 0;
        while i < self.build_configurations.len()
            invariant
                i <= self.build_configurations.len(),
                self@.build_configurations == build_configurations_view(self.build_configurations@),
                first_sdkroot(self@.build_configurations, 0) is None,
                first_inherited_sdkroot(objects@, self@.build_configurations, 0)
                    == first_inherited_sdkroot(objects@, self@.build_configurations, i as int),
            decreases self.build_configurations.len() - i,
        {
            assert(self@.build_configurations[i as int] == build_configuration_view(
                self.build_configurations@[i as int],
            ));
            match &self.build_configurations[i].base_configuration {
                Some(base) => {
                    let based = objects.get_build_configurations_by_base_id(base.id.as_str());
                    match sdkroot_among(&based) {
                        Some(s) => {
                            return Some(s);
                        },
                        None => {},
                    }
                },
                None => {},
            }
            i += 1;
        }
        None
    }
}

impl PBXTargetInfo {
    /// What can be told of `target` among `objects`: its platform, and the names
    /// of its configurations.
    pub fn new(target: &PBXTarget, objects: &PBXObjectCollection) -> (r: PBXTargetInfo)
        ensures
            r.platform == platform_for(objects@, target@),
            texts_view(r.configurations@) == configuration_names(target@),
    {
        let mut configurations: Vec<String> = Vec::new();
        let mut own: Option<String> = None;
        assert(texts_view(configurations@) =~= Seq::empty());
        match &target.build_configuration_list {
            Some(list) => {
                assert(target@.build_configuration_list == Some(configuration_list_view(*list)));
                assert(list@.build_configurations == build_configurations_view(
                    list.build_configurations@,
                ));
                let mut i: usize = 0;
                while i < list.build_configurations.len()
                    invariant
                        i <= list.build_configurations.len(),
                        list@.build_configurations == build_configurations_view(
                            list.build_configurations@,
                        ),
                        texts_view(configurations@) == Seq::new(
                            i as nat,
                            |k: int| list@.build_configurations[k].name,
                        ),
                    decreases list.build_configurations.len() - i,
                {
                    assert(list@.build_configurations[i as int] == build_configuration_view(
                        list.build_configurations@[i as int],
                    ));
                    let ghost before = texts_view(configurations@);
                    let name = list.build_configurations[i].name.clone();
                    assert(name@ == list@.build_configurations[i as int].name);
                    configurations.push(name);
                    assert(texts_view(configurations@) =~= before.push(name@));
                    i += 1;
                    assert(texts_view(configurations@) =~= Seq::new(
                        i as nat,
                        |k: int| list@.build_configurations[k].name,
                    ));
                }
                own = list.extract_sdkroot_from_children(objects);
            },
            None => {},
        }
        let sdkroot = match own {
            Some(s) => Some(s),
            None => {
                let projects = objects.projects();
                let mut found: Option<String> = None;
                let mut i: usize = 0;
                while i < projects.len() && found.is_none()
                    invariant
                        i <= projects.len(),
                        projects_view(projects@) == all_projects(objects@),
                        match found {
                            Some(s) => first_project_sdkroot(objects@, all_projects(objects@), 0)
                                == Some(s@),
                            None => first_project_sdkroot(objects@, all_projects(objects@), 0)
                                == first_project_sdkroot(
                                objects@,
                                all_projects(objects@),
                                i as int,
                            ),
                        },
                    decreases projects.len() - i,
                {
                    assert(projects_view(projects@)[i as int] == project_view(projects@[i as int]));
                    found = projects[i].build_configuration_list.extract_sdkroot_from_children(
                        objects,
                    );
                    i += 1;
                }
                found
            },
        };
        let platform = match sdkroot {
            Some(s) => PBXTargetPlatform::from_sdk_root(s.as_str()),
            None => PBXTargetPlatform::Unknown,
        };
        PBXTargetInfo { platform, configurations }
    }
}

impl<'a> PBXTarget<'a> {
    /// What can be told of this target among `objects`.
    pub fn info(&self, objects: &PBXObjectCollection) -> (r: PBXTargetInfo)
        ensures
            r.platform == platform_for(objects@, self@),
            texts_view(r.configurations@) == configuration_names(self@),
    {
        PBXTargetInfo::new(self, objects)
    }
}

} // verus!
