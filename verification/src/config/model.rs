//! A description as a whole.

use vstd::prelude::*;
use crate::config::error::ConfigError;
use crate::config::error::Fault;
use crate::config::error::Place;
use crate::config::error::Section;
use crate::config::material::put_material;
use crate::config::material::MaterialModel;
use crate::config::material::MaterialStorage;
use crate::config::material::Materials;
use crate::config::object::ObjectModel;
use crate::config::parse::fault_at;
use crate::config::texture::put_named;
use crate::config::texture::TextureModel;
use crate::config::texture::TextureStorage;
use crate::config::texture::Textures;
use crate::config::value::Table;
use crate::config::value::Value;

verus! {

/// What a description says: its textures, its materials and its objects.
#[derive(Debug)]
pub struct ConfigModel {
    pub textures: TextureStorage,
    pub materials: MaterialStorage,
    pub objects: Vec<ObjectModel>,
}

/// The textures after the first `n` entries of the table of textures were
/// read, or the first fault among them. Each entry is a table; it is read
/// as a texture and stored under its key.
pub open spec fn spec_read_textures(table: Table, n: int) -> Result<Textures, ConfigError>
    decreases n,
{
    if n <= 0 {
        Ok(Seq::empty())
    } else {
        let place = Place::spec_entry(Section::Textures, (n - 1) as usize);
        match spec_read_textures(table, n - 1) {
            Err(e) => Err(e),
            Ok(stored) => match table.entries@[n - 1].1 {
                Value::Table(entry) => {
                    let (r, after) = TextureModel::spec_parse(entry, place, stored);
                    match r {
                        Ok(model) => Ok(put_named(after, table.entries@[n - 1].0, model)),
                        Err(e) => Err(e),
                    }
                },
                _ => Err(fault_at(place, Fault::MustBeTable)),
            },
        }
    }
}

/// The materials and the textures after the first `n` entries of the table
/// of materials were read, or the first fault among them. Each entry is a
/// table; it is read as a material and stored under its key.
pub open spec fn spec_read_materials(table: Table, n: int, textures: Textures) -> Result<
    (Materials, Textures),
    ConfigError,
>
    decreases n,
{
    if n <= 0 {
        Ok((Seq::empty(), textures))
    } else {
        let place = Place::spec_entry(Section::Materials, (n - 1) as usize);
        match spec_read_materials(table, n - 1, textures) {
            Err(e) => Err(e),
            Ok((materials, stored)) => match table.entries@[n - 1].1 {
                Value::Table(entry) => {
                    let (r, after) = MaterialModel::spec_parse(entry, place, stored);
                    match r {
                        Ok(model) => Ok(
                            (put_material(materials, table.entries@[n - 1].0, model), after),
                        ),
                        Err(e) => Err(e),
                    }
                },
                _ => Err(fault_at(place, Fault::MustBeTable)),
            },
        }
    }
}

/// The first `n` objects of the list of objects, or the first fault among
/// them. Each entry is a table; it is read as an object.
pub open spec fn spec_read_objects(list: Seq<Value>, n: int, materials: Materials) -> Result<
    Seq<ObjectModel>,
    ConfigError,
>
    decreases n,
{
    if n <= 0 {
        Ok(Seq::empty())
    } else {
        let place = Place::spec_entry(Section::Objects, (n - 1) as usize);
        match spec_read_objects(list, n - 1, materials) {
            Err(e) => Err(e),
            Ok(objects) => match list[n - 1] {
                Value::Table(entry) => match ObjectModel::spec_parse(entry, place, materials) {
                    Ok(model) => Ok(objects.push(model)),
                    Err(e) => Err(e),
                },
                _ => Err(fault_at(place, Fault::MustBeTable)),
            },
        }
    }
}

/// What the three parts of a description say: the textures are read first,
/// then the materials, then the objects, each part in its order, up to the
/// first fault.
pub open spec fn spec_read(texture_table: Table, material_table: Table, object_array: Seq<Value>)
    -> Result<(Textures, Materials, Seq<ObjectModel>), ConfigError> {
    match spec_read_textures(texture_table, texture_table.entries@.len() as int) {
        Err(e) => Err(e),
        Ok(named) => match spec_read_materials(
            material_table,
            material_table.entries@.len() as int,
            named,
        ) {
            Err(e) => Err(e),
            Ok((materials, textures)) => match spec_read_objects(
                object_array,
                object_array.len() as int,
                materials,
            ) {
                Err(e) => Err(e),
                Ok(objects) => Ok((textures, materials, objects)),
            },
        }
    }
}

/// What a description says: the textures, the materials and the objects
/// that it lists, or the first fault in it. The description has a table
/// `textures`, a table `materials` and a list `objects`.
pub open spec fn spec_from_table(table: Table) -> Result<
    (Textures, Materials, Seq<ObjectModel>),
    ConfigError,
> {
    match table.spec_get("textures"@) {
        Some(Value::Table(texture_table)) => match table.spec_get("materials"@) {
            Some(Value::Table(material_table)) => match table.spec_get("objects"@) {
                Some(Value::Array(object_array)) => spec_read(
                    texture_table,
                    material_table,
                    object_array@,
                ),
                _ => Err(fault_at(Place::spec_section(Section::Objects), Fault::MustBeList)),
            },
            _ => Err(fault_at(Place::spec_section(Section::Materials), Fault::MustBeTable)),
        },
        _ => Err(fault_at(Place::spec_section(Section::Textures), Fault::MustBeTable)),
    }
}

/// A fault among the first entries of the textures is the fault of the
/// whole table.
proof fn lemma_texture_fault_stays(table: Table, k: int, n: int)
    requires
        k <= n,
        spec_read_textures(table, k) is Err,
    ensures
        spec_read_textures(table, n) == spec_read_textures(table, k),
    decreases n - k,
{
    if k < n {
        lemma_texture_fault_stays(table, k, n - 1);
    }
}

/// A fault among the first entries of the materials is the fault of the
/// whole table.
proof fn lemma_material_fault_stays(table: Table, k: int, n: int, textures: Textures)
    requires
        k <= n,
        spec_read_materials(table, k, textures) is Err,
    ensures
        spec_read_materials(table, n, textures) == spec_read_materials(table, k, textures),
    decreases n - k,
{
    if k < n {
        lemma_material_fault_stays(table, k, n - 1, textures);
    }
}

/// A fault among the first objects is the fault of the whole list.
proof fn lemma_object_fault_stays(list: Seq<Value>, k: int, n: int, materials: Materials)
    requires
        k <= n,
        spec_read_objects(list, k, materials) is Err,
    ensures
        spec_read_objects(list, n, materials) == spec_read_objects(list, k, materials),
    decreases n - k,
{
    if k < n {
        lemma_object_fault_stays(list, k, n - 1, materials);
    }
}

/// Reads the table of textures into `storage`, which starts empty.
fn read_textures(texture_table: &Table, storage: &mut TextureStorage) -> (r: Result<
    (),
    ConfigError,
>)
    requires
        old(storage).entries@ == Textures::empty(),
    ensures
        match r {
            Ok(_) => spec_read_textures(*texture_table, texture_table.entries@.len() as int) == Ok::<
                Textures,
                ConfigError,
            >(final(storage).entries@),
            Err(e) => spec_read_textures(*texture_table, texture_table.entries@.len() as int)
                == Err::<Textures, ConfigError>(e),
        },
{
    let mut i: usize = 0;
    while i < texture_table.entries.len()
        invariant
            0 <= i <= texture_table.entries@.len(),
            spec_read_textures(*texture_table, i as int) == Ok::<Textures, ConfigError>(
                storage.entries@,
            ),
        decreases texture_table.entries@.len() - i,
    {
        let place = Place::entry(Section::Textures, i);
        let parsed = match &texture_table.entries[i].1 {
            Value::Table(entry) => TextureModel::parse(entry, place, storage),
            _ => Err(place.fault(Fault::MustBeTable)),
        };
        match parsed {
            Ok(texture) => {
                storage.push_named(texture_table.entries[i].0.clone(), texture);
            },
            Err(e) => {
                proof {
                    lemma_texture_fault_stays(
                        *texture_table,
                        i as int + 1,
                        texture_table.entries@.len() as int,
                    );
                }
                return Err(e);
            },
        }
        i = i + 1;
    }
    Ok(())
}

/// Reads the table of materials into `materials`, which starts empty, and
/// stores the textures that the materials bring with them.
fn read_materials(
    material_table: &Table,
    textures: &mut TextureStorage,
    materials: &mut MaterialStorage,
) -> (r: Result<(), ConfigError>)
    requires
        old(materials).entries@ == Materials::empty(),
    ensures
        match r {
            Ok(_) => spec_read_materials(
                *material_table,
                material_table.entries@.len() as int,
                old(textures).entries@,
            ) == Ok::<(Materials, Textures), ConfigError>(
                (final(materials).entries@, final(textures).entries@),
            ),
            Err(e) => spec_read_materials(
                *material_table,
                material_table.entries@.len() as int,
                old(textures).entries@,
            ) == Err::<(Materials, Textures), ConfigError>(e),
        },
{
    let mut i: usize = 0;
    while i < material_table.entries.len()
        invariant
            0 <= i <= material_table.entries@.len(),
            spec_read_materials(*material_table, i as int, old(textures).entries@) == Ok::<
                (Materials, Textures),
                ConfigError,
            >((materials.entries@, textures.entries@)),
        decreases material_table.entries@.len() - i,
    {
        let place = Place::entry(Section::Materials, i);
        let parsed = match &material_table.entries[i].1 {
            Value::Table(entry) => MaterialModel::parse(entry, place, textures),
            _ => Err(place.fault(Fault::MustBeTable)),
        };
        match parsed {
            Ok(material) => {
                materials.insert(material_table.entries[i].0.clone(), material);
            },
            Err(e) => {
                proof {
                    lemma_material_fault_stays(
                        *material_table,
                        i as int + 1,
                        material_table.entries@.len() as int,
                        old(textures).entries@,
                    );
                }
                return Err(e);
            },
        }
        i = i + 1;
    }
    Ok(())
}

/// Reads the list of objects.
fn read_objects(object_array: &Vec<Value>, materials: &MaterialStorage) -> (r: Result<
    Vec<ObjectModel>,
    ConfigError,
>)
    ensures
        match r {
            Ok(objects) => spec_read_objects(
                object_array@,
                object_array@.len() as int,
                materials.entries@,
            ) == Ok::<Seq<ObjectModel>, ConfigError>(objects@),
            Err(e) => spec_read_objects(
                object_array@,
                object_array@.len() as int,
                materials.entries@,
            ) == Err::<Seq<ObjectModel>, ConfigError>(e),
        },
{
    let mut objects: Vec<ObjectModel> = Vec::with_capacity(object_array.len());
    let mut i: usize = 0;
    while i < object_array.len()
        invariant
            0 <= i <= object_array@.len(),
            spec_read_objects(object_array@, i as int, materials.entries@) == Ok::<
                Seq<ObjectModel>,
                ConfigError,
            >(objects@),
        decreases object_array@.len() - i,
    {
        let place = Place::entry(Section::Objects, i);
        let parsed = match &object_array[i] {
            Value::Table(entry) => ObjectModel::parse(entry, place, materials),
            _ => Err(place.fault(Fault::MustBeTable)),
        };
        match parsed {
            Ok(object) => {
                objects.push(object);
            },
            Err(e) => {
                proof {
                    lemma_object_fault_stays(
                        object_array@,
                        i as int + 1,
                        object_array@.len() as int,
                        materials.entries@,
                    );
                }
                return Err(e);
            },
        }
        i = i + 1;
    }
    Ok(objects)
}

impl ConfigModel {
    /// Reads a description. The description has a table `textures`, a
    /// table `materials` and a list `objects`; each entry of them is a
    /// table. The textures are read first and stored under their keys, then
    /// the materials, which name textures, then the objects, which name
    /// materials. The first fault ends the reading and is returned with
    /// its place.
    pub fn from_table(table: &Table) -> (r: Result<ConfigModel, ConfigError>)
        ensures
            match r {
                Ok(model) => spec_from_table(*table) == Ok::<
                    (Textures, Materials, Seq<ObjectModel>),
                    ConfigError,
                >((model.textures.entries@, model.materials.entries@, model.objects@)),
                Err(e) => spec_from_table(*table) == Err::<
                    (Textures, Materials, Seq<ObjectModel>),
                    ConfigError,
                >(e),
            },
    {
        let texture_table = match table.get("textures") {
            Some(Value::Table(texture_table)) => texture_table,
            _ => {
                return Err(Place::section(Section::Textures).fault(Fault::MustBeTable));
            },
        };
        let material_table = match table.get("materials") {
            Some(Value::Table(material_table)) => material_table,
            _ => {
                return Err(Place::section(Section::Materials).fault(Fault::MustBeTable));
            },
        };
        let object_array = match table.get("objects") {
            Some(Value::Array(object_array)) => object_array,
            _ => {
                return Err(Place::section(Section::Objects).fault(Fault::MustBeList));
            },
        };
        let mut textures = TextureStorage::with_capacity(texture_table.len());
        let mut materials = MaterialStorage::new();
        match read_textures(texture_table, &mut textures) {
            Ok(_) => {},
            Err(e) => {
                return Err(e);
            },
        }
        match read_materials(material_table, &mut textures, &mut materials) {
            Ok(_) => {},
            Err(e) => {
                return Err(e);
            },
        }
        match read_objects(object_array, &materials) {
            Ok(objects) => Ok(ConfigModel { textures, materials, objects }),
            Err(e) => Err(e),
        }
    }
}

} // verus!
