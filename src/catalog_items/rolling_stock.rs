use crate::catalog_items::category::{
    Category, ElectricMultipleUnitType, FreightCarType, LocomotiveType, PassengerCarType,
    RailcarType,
};
use crate::catalog_items::control::{has_decoder, Control, DccInterface};
use crate::catalog_items::epoch::Epoch;
use crate::catalog_items::length_over_buffer::LengthOverBuffer;
use crate::catalog_items::rolling_stock_id::RollingStockId;
use crate::catalog_items::service_level::ServiceLevel;
use crate::catalog_items::tech_specs::{tech_specs_eq, TechSpecs};
use crate::railways::railway_id::RailwayId;
use crate::text::{as_str_opt, opt_string, opt_string_eq, opt_text, to_owned_opt};
use vstd::prelude::*;
use vstd::string::*;

verus! {

/// A rolling stock, one of five categories, each with its own attributes.
///
/// Only the powered categories (electric multiple units, locomotives and
/// railcars) hold a control method and a DCC interface; a locomotive is the
/// only one whose road number is mandatory.
#[derive(Debug, Clone)]
#[allow(inconsistent_fields)]
pub enum RollingStock {
    ElectricMultipleUnit {
        id: RollingStockId,
        type_label: String,
        road_number: Option<String>,
        railway: Railway,
        epoch: Epoch,
        category: ElectricMultipleUnitType,
        depot: Option<String>,
        livery: Option<String>,
        is_dummy: bool,
        length_over_buffer: Option<LengthOverBuffer>,
        control: Option<Control>,
        dcc_interface: Option<DccInterface>,
        tech_specs: Option<TechSpecs>,
    },
    Locomotive {
        id: RollingStockId,
        class_name: String,
        road_number: String,
        series: Option<String>,
        railway: Railway,
        epoch: Epoch,
        category: LocomotiveType,
        depot: Option<String>,
        livery: Option<String>,
        length_over_buffer: Option<LengthOverBuffer>,
        control: Option<Control>,
        dcc_interface: Option<DccInterface>,
        tech_specs: Option<TechSpecs>,
    },
    FreightCar {
        id: RollingStockId,
        type_label: String,
        road_number: Option<String>,
        railway: Railway,
        epoch: Epoch,
        category: Option<FreightCarType>,
        livery: Option<String>,
        length_over_buffer: Option<LengthOverBuffer>,
        tech_specs: Option<TechSpecs>,
    },
    PassengerCar {
        id: RollingStockId,
        type_label: String,
        road_number: Option<String>,
        railway: Railway,
        epoch: Epoch,
        category: Option<PassengerCarType>,
        service_level: Option<ServiceLevel>,
        livery: Option<String>,
        length_over_buffer: Option<LengthOverBuffer>,
        tech_specs: Option<TechSpecs>,
    },
    Railcar {
        id: RollingStockId,
        type_label: String,
        road_number: Option<String>,
        railway: Railway,
        epoch: Epoch,
        category: Option<RailcarType>,
        depot: Option<String>,
        livery: Option<String>,
        is_dummy: bool,
        length_over_buffer: Option<LengthOverBuffer>,
        control: Option<Control>,
        dcc_interface: Option<DccInterface>,
        tech_specs: Option<TechSpecs>,
    },
}

/// The coarse catalog category of a rolling stock's variant.
pub open spec fn category_of(rs: RollingStock) -> Category {
    match rs {
        RollingStock::ElectricMultipleUnit { .. } => Category::ElectricMultipleUnits,
        RollingStock::Locomotive { .. } => Category::Locomotives,
        RollingStock::FreightCar { .. } => Category::FreightCars,
        RollingStock::PassengerCar { .. } => Category::PassengerCars,
        RollingStock::Railcar { .. } => Category::Railcars,
    }
}

/// The variant can carry a control method and a DCC interface.
pub open spec fn is_powered(rs: RollingStock) -> bool {
    !(rs is FreightCar || rs is PassengerCar)
}

/// The DCC interface of a powered rolling stock; `None` for the others.
pub open spec fn dcc_interface_of(rs: RollingStock) -> Option<DccInterface> {
    match rs {
        RollingStock::ElectricMultipleUnit { dcc_interface, .. } => dcc_interface,
        RollingStock::Locomotive { dcc_interface, .. } => dcc_interface,
        RollingStock::Railcar { dcc_interface, .. } => dcc_interface,
        _ => None,
    }
}

/// The control method of a powered rolling stock; `None` for the others.
pub open spec fn control_of(rs: RollingStock) -> Option<Control> {
    match rs {
        RollingStock::ElectricMultipleUnit { control, .. } => control,
        RollingStock::Locomotive { control, .. } => control,
        RollingStock::Railcar { control, .. } => control,
        _ => None,
    }
}

/// A decoder is fitted: the control method is DCC or DCC with sound.
pub open spec fn with_decoder_of(rs: RollingStock) -> bool {
    match control_of(rs) {
        Some(c) => has_decoder(c),
        None => false,
    }
}

pub open spec fn id_of(rs: RollingStock) -> RollingStockId {
    match rs {
        RollingStock::ElectricMultipleUnit { id, .. } => id,
        RollingStock::Locomotive { id, .. } => id,
        RollingStock::FreightCar { id, .. } => id,
        RollingStock::PassengerCar { id, .. } => id,
        RollingStock::Railcar { id, .. } => id,
    }
}

pub open spec fn railway_of(rs: RollingStock) -> Railway {
    match rs {
        RollingStock::ElectricMultipleUnit { railway, .. } => railway,
        RollingStock::Locomotive { railway, .. } => railway,
        RollingStock::FreightCar { railway, .. } => railway,
        RollingStock::PassengerCar { railway, .. } => railway,
        RollingStock::Railcar { railway, .. } => railway,
    }
}

pub open spec fn epoch_of(rs: RollingStock) -> Epoch {
    match rs {
        RollingStock::ElectricMultipleUnit { epoch, .. } => epoch,
        RollingStock::Locomotive { epoch, .. } => epoch,
        RollingStock::FreightCar { epoch, .. } => epoch,
        RollingStock::PassengerCar { epoch, .. } => epoch,
        RollingStock::Railcar { epoch, .. } => epoch,
    }
}

pub open spec fn livery_of(rs: RollingStock) -> Option<Seq<char>> {
    match rs {
        RollingStock::ElectricMultipleUnit { livery, .. } => opt_string(livery),
        RollingStock::Locomotive { livery, .. } => opt_string(livery),
        RollingStock::FreightCar { livery, .. } => opt_string(livery),
        RollingStock::PassengerCar { livery, .. } => opt_string(livery),
        RollingStock::Railcar { livery, .. } => opt_string(livery),
    }
}

/// The road number; a locomotive always has one.
pub open spec fn road_number_of(rs: RollingStock) -> Option<Seq<char>> {
    match rs {
        RollingStock::ElectricMultipleUnit { road_number, .. } => opt_string(road_number),
        RollingStock::Locomotive { road_number, .. } => Some(road_number@),
        RollingStock::FreightCar { road_number, .. } => opt_string(road_number),
        RollingStock::PassengerCar { road_number, .. } => opt_string(road_number),
        RollingStock::Railcar { road_number, .. } => opt_string(road_number),
    }
}

pub open spec fn length_over_buffer_of(rs: RollingStock) -> Option<LengthOverBuffer> {
    match rs {
        RollingStock::ElectricMultipleUnit { length_over_buffer, .. } => length_over_buffer,
        RollingStock::Locomotive { length_over_buffer, .. } => length_over_buffer,
        RollingStock::FreightCar { length_over_buffer, .. } => length_over_buffer,
        RollingStock::PassengerCar { length_over_buffer, .. } => length_over_buffer,
        RollingStock::Railcar { length_over_buffer, .. } => length_over_buffer,
    }
}

pub open spec fn tech_specs_of(rs: RollingStock) -> Option<TechSpecs> {
    match rs {
        RollingStock::ElectricMultipleUnit { tech_specs, .. } => tech_specs,
        RollingStock::Locomotive { tech_specs, .. } => tech_specs,
        RollingStock::FreightCar { tech_specs, .. } => tech_specs,
        RollingStock::PassengerCar { tech_specs, .. } => tech_specs,
        RollingStock::Railcar { tech_specs, .. } => tech_specs,
    }
}

impl RollingStock {
    /// Creates a new electric multiple unit rolling stock
    pub fn new_electric_multiple_unit(
        id: RollingStockId,
        type_label: &str,
        road_number: Option<&str>,
        railway: Railway,
        epoch: Epoch,
        category: ElectricMultipleUnitType,
        depot: Option<&str>,
        livery: Option<&str>,
        is_dummy: bool,
        length_over_buffer: Option<LengthOverBuffer>,
        control: Option<Control>,
        dcc_interface: Option<DccInterface>,
        tech_specs: Option<TechSpecs>,
    ) -> (r: RollingStock)
        ensures
            r matches RollingStock::ElectricMultipleUnit {
                id: i,
                type_label: t,
                road_number: n,
                railway: rw,
                epoch: e,
                category: k,
                depot: d,
                livery: l,
                is_dummy: dummy,
                length_over_buffer: lob,
                control: ctl,
                dcc_interface: dcc,
                tech_specs: ts,
            } && i == id && t@ == type_label@ && opt_string(n) == opt_text(road_number) && rw
                == railway && e == epoch && k == category && opt_string(d) == opt_text(depot)
                && opt_string(l) == opt_text(livery) && dummy == is_dummy && lob
                == length_over_buffer && ctl == control && dcc == dcc_interface && ts == tech_specs,
    {
        RollingStock::ElectricMultipleUnit {
            id,
            type_label: String::from_str(type_label),
            road_number: to_owned_opt(road_number),
            railway,
            epoch,
            category,
            depot: to_owned_opt(depot),
            livery: to_owned_opt(livery),
            is_dummy,
            length_over_buffer,
            control,
            dcc_interface,
            tech_specs,
        }
    }

    /// Creates a new locomotive; its road number is mandatory.
    pub fn new_locomotive(
        id: RollingStockId,
        class_name: &str,
        road_number: &str,
        series: Option<&str>,
        railway: Railway,
        epoch: Epoch,
        category: LocomotiveType,
        depot: Option<&str>,
        livery: Option<&str>,
        length_over_buffer: Option<LengthOverBuffer>,
        control: Option<Control>,
        dcc_interface: Option<DccInterface>,
        tech_specs: Option<TechSpecs>,
    ) -> (r: RollingStock)
        ensures
            r matches RollingStock::Locomotive {
                id: i,
                class_name: c,
                road_number: n,
                series: s,
                railway: rw,
                epoch: e,
                category: k,
                depot: d,
                livery: l,
                length_over_buffer: lob,
                control: ctl,
                dcc_interface: dcc,
                tech_specs: ts,
            } && i == id && c@ == class_name@ && n@ == road_number@ && opt_string(s) == opt_text(
                series,
            ) && rw == railway && e == epoch && k == category && opt_string(d) == opt_text(depot)
                && opt_string(l) == opt_text(livery) && lob == length_over_buffer && ctl == control
                && dcc == dcc_interface && ts == tech_specs,
    {
        RollingStock::Locomotive {
            id,
            class_name: String::from_str(class_name),
            road_number: String::from_str(road_number),
            series: to_owned_opt(series),
            railway,
            epoch,
            category,
            depot: to_owned_opt(depot),
            livery: to_owned_opt(livery),
            length_over_buffer,
            control,
            dcc_interface,
            tech_specs,
        }
    }

    /// Creates a new freight car; it carries no control method.
    pub fn new_freight_car(
        id: RollingStockId,
        type_label: &str,
        road_number: Option<&str>,
        railway: Railway,
        epoch: Epoch,
        category: Option<FreightCarType>,
        livery: Option<&str>,
        length_over_buffer: Option<LengthOverBuffer>,
        tech_specs: Option<TechSpecs>,
    ) -> (r: RollingStock)
        ensures
            r matches RollingStock::FreightCar {
                id: i,
                type_label: t,
                road_number: n,
                railway: rw,
                epoch: e,
                category: k,
                livery: l,
                length_over_buffer: lob,
                tech_specs: ts,
            } && i == id && t@ == type_label@ && opt_string(n) == opt_text(road_number) && rw
                == railway && e == epoch && k == category && opt_string(l) == opt_text(livery)
                && lob == length_over_buffer && ts == tech_specs,
    {
        RollingStock::FreightCar {
            id,
            type_label: String::from_str(type_label),
            road_number: to_owned_opt(road_number),
            railway,
            epoch,
            category,
            livery: to_owned_opt(livery),
            length_over_buffer,
            tech_specs,
        }
    }

    /// Creates a new passenger car; it carries no control method.
    pub fn new_passenger_car(
        id: RollingStockId,
        type_label: &str,
        road_number: Option<&str>,
        railway: Railway,
        epoch: Epoch,
        category: Option<PassengerCarType>,
        service_level: Option<ServiceLevel>,
        livery: Option<&str>,
        length_over_buffer: Option<LengthOverBuffer>,
        tech_specs: Option<TechSpecs>,
    ) -> (r: RollingStock)
        ensures
            r matches RollingStock::PassengerCar {
                id: i,
                type_label: t,
                road_number: n,
                railway: rw,
                epoch: e,
                category: k,
                service_level: sl,
                livery: l,
                length_over_buffer: lob,
                tech_specs: ts,
            } && i == id && t@ == type_label@ && opt_string(n) == opt_text(road_number) && rw
                == railway && e == epoch && k == category && sl == service_level && opt_string(l)
                == opt_text(livery) && lob == length_over_buffer && ts == tech_specs,
    {
        RollingStock::PassengerCar {
            id,
            type_label: String::from_str(type_label),
            road_number: to_owned_opt(road_number),
            railway,
            epoch,
            category,
            service_level,
            livery: to_owned_opt(livery),
            length_over_buffer,
            tech_specs,
        }
    }

    /// Creates a new railcar.
    pub fn new_railcar(
        id: RollingStockId,
        type_label: &str,
        road_number: Option<&str>,
        railway: Railway,
        epoch: Epoch,
        category: Option<RailcarType>,
        depot: Option<&str>,
        livery: Option<&str>,
        is_dummy: bool,
        length_over_buffer: Option<LengthOverBuffer>,
        control: Option<Control>,
        dcc_interface: Option<DccInterface>,
        tech_specs: Option<TechSpecs>,
    ) -> (r: RollingStock)
        ensures
            r matches RollingStock::Railcar {
                id: i,
                type_label: t,
                road_number: n,
                railway: rw,
                epoch: e,
                category: k,
                depot: d,
                livery: l,
                is_dummy: dummy,
                length_over_buffer: lob,
                control: ctl,
                dcc_interface: dcc,
                tech_specs: ts,
            } && i == id && t@ == type_label@ && opt_string(n) == opt_text(road_number) && rw
                == railway && e == epoch && k == category && opt_string(d) == opt_text(depot)
                && opt_string(l) == opt_text(livery) && dummy == is_dummy && lob
                == length_over_buffer && ctl == control && dcc == dcc_interface && ts == tech_specs,
    {
        RollingStock::Railcar {
            id,
            type_label: String::from_str(type_label),
            road_number: to_owned_opt(road_number),
            railway,
            epoch,
            category,
            depot: to_owned_opt(depot),
            livery: to_owned_opt(livery),
            is_dummy,
            length_over_buffer,
            control,
            dcc_interface,
            tech_specs,
        }
    }

    /// The category for this rolling stock
    pub fn category(&self) -> (r: Category)
        ensures
            r == category_of(*self),
    {
        match self {
            RollingStock::ElectricMultipleUnit { .. } => Category::ElectricMultipleUnits,
            RollingStock::Locomotive { .. } => Category::Locomotives,
            RollingStock::FreightCar { .. } => Category::FreightCars,
            RollingStock::PassengerCar { .. } => Category::PassengerCars,
            RollingStock::Railcar { .. } => Category::Railcars,
        }
    }

    /// The unique identifier for the rolling stock
    pub fn id(&self) -> (r: RollingStockId)
        ensures
            r == id_of(*self),
    {
        match self {
            RollingStock::ElectricMultipleUnit { id, .. } => *id,
            RollingStock::Locomotive { id, .. } => *id,
            RollingStock::FreightCar { id, .. } => *id,
            RollingStock::PassengerCar { id, .. } => *id,
            RollingStock::Railcar { id, .. } => *id,
        }
    }

    pub fn epoch(&self) -> (r: &Epoch)
        ensures
            *r == epoch_of(*self),
    {
        match self {
            RollingStock::ElectricMultipleUnit { epoch, .. } => epoch,
            RollingStock::Locomotive { epoch, .. } => epoch,
            RollingStock::FreightCar { epoch, .. } => epoch,
            RollingStock::PassengerCar { epoch, .. } => epoch,
            RollingStock::Railcar { epoch, .. } => epoch,
        }
    }

    /// The livery for this rolling stock
    pub fn livery(&self) -> (r: Option<&str>)
        ensures
            opt_text(r) == livery_of(*self),
    {
        match self {
            RollingStock::ElectricMultipleUnit { livery, .. } => as_str_opt(livery),
            RollingStock::Locomotive { livery, .. } => as_str_opt(livery),
            RollingStock::FreightCar { livery, .. } => as_str_opt(livery),
            RollingStock::PassengerCar { livery, .. } => as_str_opt(livery),
            RollingStock::Railcar { livery, .. } => as_str_opt(livery),
        }
    }

    pub fn length_over_buffer(&self) -> (r: Option<&LengthOverBuffer>)
        ensures
            match r {
                Some(l) => length_over_buffer_of(*self) == Some(*l),
                None => length_over_buffer_of(*self) is None,
            },
    {
        match self {
            RollingStock::ElectricMultipleUnit { length_over_buffer, .. } => length_over_buffer.as_ref(),
            RollingStock::Locomotive { length_over_buffer, .. } => length_over_buffer.as_ref(),
            RollingStock::FreightCar { length_over_buffer, .. } => length_over_buffer.as_ref(),
            RollingStock::PassengerCar { length_over_buffer, .. } => length_over_buffer.as_ref(),
            RollingStock::Railcar { length_over_buffer, .. } => length_over_buffer.as_ref(),
        }
    }

    pub fn railway(&self) -> (r: &Railway)
        ensures
            *r == railway_of(*self),
    {
        match self {
            RollingStock::ElectricMultipleUnit { railway, .. } => railway,
            RollingStock::Locomotive { railway, .. } => railway,
            RollingStock::FreightCar { railway, .. } => railway,
            RollingStock::PassengerCar { railway, .. } => railway,
            RollingStock::Railcar { railway, .. } => railway,
        }
    }

    /// The road number; always present for a locomotive.
    pub fn road_number(&self) -> (r: Option<&str>)
        ensures
            opt_text(r) == road_number_of(*self),
    {
        match self {
            RollingStock::ElectricMultipleUnit { road_number, .. } => as_str_opt(road_number),
            RollingStock::Locomotive { road_number, .. } => Some(road_number.as_str()),
            RollingStock::FreightCar { road_number, .. } => as_str_opt(road_number),
            RollingStock::PassengerCar { road_number, .. } => as_str_opt(road_number),
            RollingStock::Railcar { road_number, .. } => as_str_opt(road_number),
        }
    }

    pub fn tech_specs(&self) -> (r: Option<&TechSpecs>)
        ensures
            match r {
                Some(t) => tech_specs_of(*self) == Some(*t),
                None => tech_specs_of(*self) is None,
            },
    {
        match self {
            RollingStock::ElectricMultipleUnit { tech_specs, .. } => tech_specs.as_ref(),
            RollingStock::Locomotive { tech_specs, .. } => tech_specs.as_ref(),
            RollingStock::FreightCar { tech_specs, .. } => tech_specs.as_ref(),
            RollingStock::PassengerCar { tech_specs, .. } => tech_specs.as_ref(),
            RollingStock::Railcar { tech_specs, .. } => tech_specs.as_ref(),
        }
    }

    /// The DCC interface of a powered rolling stock; `None` for freight and
    /// passenger cars.
    pub fn dcc_interface(&self) -> (r: Option<DccInterface>)
        ensures
            r == dcc_interface_of(*self),
    {
        match self {
            RollingStock::ElectricMultipleUnit { dcc_interface, .. } => *dcc_interface,
            RollingStock::Locomotive { dcc_interface, .. } => *dcc_interface,
            RollingStock::Railcar { dcc_interface, .. } => *dcc_interface,
            _ => None,
        }
    }

    /// A decoder is fitted; always false for freight and passenger cars.
    pub fn with_decoder(&self) -> (r: bool)
        ensures
            r == with_decoder_of(*self),
    {
        match self {
            RollingStock::ElectricMultipleUnit { control: Some(control), .. } => control.with_decoder(),
            RollingStock::Locomotive { control: Some(control), .. } => control.with_decoder(),
            RollingStock::Railcar { control: Some(control), .. } => control.with_decoder(),
            _ => false,
        }
    }
}

/// Each constructor gives the variant of its own category, and freight and
/// passenger cars never report a decoder or a DCC interface.
pub proof fn lemma_category_follows_variant(rs: RollingStock)
    ensures
        rs is ElectricMultipleUnit <==> category_of(rs) == Category::ElectricMultipleUnits,
        rs is Locomotive <==> category_of(rs) == Category::Locomotives,
        rs is FreightCar <==> category_of(rs) == Category::FreightCars,
        rs is PassengerCar <==> category_of(rs) == Category::PassengerCars,
        rs is Railcar <==> category_of(rs) == Category::Railcars,
        !is_powered(rs) ==> !with_decoder_of(rs) && dcc_interface_of(rs) is None,
{
}

/// A railway company, as a rolling stock refers to it: its id and name.
#[derive(Debug, Clone)]
pub struct Railway {
    railway_id: RailwayId,
    name: String,
}

impl Railway {
    pub closed spec fn spec_id(self) -> RailwayId {
        self.railway_id
    }

    pub closed spec fn spec_name(self) -> Seq<char> {
        self.name@
    }

    /// Creates a new railway with the given name.
    pub fn new(railway_id: RailwayId, name: &str) -> (r: Railway)
        ensures
            r.spec_id() == railway_id,
            r.spec_name() == name@,
    {
        Railway { railway_id, name: String::from_str(name) }
    }

    /// Returns this railway unique identifier
    pub fn id(&self) -> (r: &RailwayId)
        ensures
            *r == self.spec_id(),
    {
        &self.railway_id
    }

    /// Returns this railway name
    pub fn name(&self) -> (r: &str)
        ensures
            r@ == self.spec_name(),
    {
        self.name.as_str()
    }

    /// The railway name.
    pub fn to_string(&self) -> (r: String)
        ensures
            r@ == self.spec_name(),
    {
        self.name.clone()
    }
}

/// Two rolling stocks are the same variant with equal attributes (texts
/// compared by their characters).
pub open spec fn rolling_stock_eq(a: RollingStock, b: RollingStock) -> bool {
    match (a, b) {
        (RollingStock::ElectricMultipleUnit { id: id1, type_label: type_label1, road_number: road_number1, railway: railway1, epoch: epoch1, category: category1, depot: depot1, livery: livery1, is_dummy: is_dummy1, length_over_buffer: length_over_buffer1, control: control1, dcc_interface: dcc_interface1, tech_specs: tech_specs1 }, RollingStock::ElectricMultipleUnit { id: id2, type_label: type_label2, road_number: road_number2, railway: railway2, epoch: epoch2, category: category2, depot: depot2, livery: livery2, is_dummy: is_dummy2, length_over_buffer: length_over_buffer2, control: control2, dcc_interface: dcc_interface2, tech_specs: tech_specs2 }) => id1 == id2
            && type_label1@ == type_label2@
            && opt_string(road_number1) == opt_string(road_number2)
            && railway_ref_eq(railway1, railway2)
            && epoch1@ == epoch2@
            && category1 == category2
            && opt_string(depot1) == opt_string(depot2)
            && opt_string(livery1) == opt_string(livery2)
            && is_dummy1 == is_dummy2
            && length_over_buffer1 == length_over_buffer2
            && control1 == control2
            && dcc_interface1 == dcc_interface2
            && tech_specs_opt_eq(tech_specs1, tech_specs2),
        (RollingStock::Locomotive { id: id1, class_name: class_name1, road_number: road_number1, series: series1, railway: railway1, epoch: epoch1, category: category1, depot: depot1, livery: livery1, length_over_buffer: length_over_buffer1, control: control1, dcc_interface: dcc_interface1, tech_specs: tech_specs1 }, RollingStock::Locomotive { id: id2, class_name: class_name2, road_number: road_number2, series: series2, railway: railway2, epoch: epoch2, category: category2, depot: depot2, livery: livery2, length_over_buffer: length_over_buffer2, control: control2, dcc_interface: dcc_interface2, tech_specs: tech_specs2 }) => id1 == id2
            && class_name1@ == class_name2@
            && road_number1@ == road_number2@
            && opt_string(series1) == opt_string(series2)
            && railway_ref_eq(railway1, railway2)
            && epoch1@ == epoch2@
            && category1 == category2
            && opt_string(depot1) == opt_string(depot2)
            && opt_string(livery1) == opt_string(livery2)
            && length_over_buffer1 == length_over_buffer2
            && control1 == control2
            && dcc_interface1 == dcc_interface2
            && tech_specs_opt_eq(tech_specs1, tech_specs2),
        (RollingStock::FreightCar { id: id1, type_label: type_label1, road_number: road_number1, railway: railway1, epoch: epoch1, category: category1, livery: livery1, length_over_buffer: length_over_buffer1, tech_specs: tech_specs1 }, RollingStock::FreightCar { id: id2, type_label: type_label2, road_number: road_number2, railway: railway2, epoch: epoch2, category: category2, livery: livery2, length_over_buffer: length_over_buffer2, tech_specs: tech_specs2 }) => id1 == id2
            && type_label1@ == type_label2@
            && opt_string(road_number1) == opt_string(road_number2)
            && railway_ref_eq(railway1, railway2)
            && epoch1@ == epoch2@
            && category1 == category2
            && opt_string(livery1) == opt_string(livery2)
            && length_over_buffer1 == length_over_buffer2
            && tech_specs_opt_eq(tech_specs1, tech_specs2),
        (RollingStock::PassengerCar { id: id1, type_label: type_label1, road_number: road_number1, railway: railway1, epoch: epoch1, category: category1, service_level: service_level1, livery: livery1, length_over_buffer: length_over_buffer1, tech_specs: tech_specs1 }, RollingStock::PassengerCar { id: id2, type_label: type_label2, road_number: road_number2, railway: railway2, epoch: epoch2, category: category2, service_level: service_level2, livery: livery2, length_over_buffer: length_over_buffer2, tech_specs: tech_specs2 }) => id1 == id2
            && type_label1@ == type_label2@
            && opt_string(road_number1) == opt_string(road_number2)
            && railway_ref_eq(railway1, railway2)
            && epoch1@ == epoch2@
            && category1 == category2
            && service_level1 == service_level2
            && opt_string(livery1) == opt_string(livery2)
            && length_over_buffer1 == length_over_buffer2
            && tech_specs_opt_eq(tech_specs1, tech_specs2),
        (RollingStock::Railcar { id: id1, type_label: type_label1, road_number: road_number1, railway: railway1, epoch: epoch1, category: category1, depot: depot1, livery: livery1, is_dummy: is_dummy1, length_over_buffer: length_over_buffer1, control: control1, dcc_interface: dcc_interface1, tech_specs: tech_specs1 }, RollingStock::Railcar { id: id2, type_label: type_label2, road_number: road_number2, railway: railway2, epoch: epoch2, category: category2, depot: depot2, livery: livery2, is_dummy: is_dummy2, length_over_buffer: length_over_buffer2, control: control2, dcc_interface: dcc_interface2, tech_specs: tech_specs2 }) => id1 == id2
            && type_label1@ == type_label2@
            && opt_string(road_number1) == opt_string(road_number2)
            && railway_ref_eq(railway1, railway2)
            && epoch1@ == epoch2@
            && category1 == category2
            && opt_string(depot1) == opt_string(depot2)
            && opt_string(livery1) == opt_string(livery2)
            && is_dummy1 == is_dummy2
            && length_over_buffer1 == length_over_buffer2
            && control1 == control2
            && dcc_interface1 == dcc_interface2
            && tech_specs_opt_eq(tech_specs1, tech_specs2),
        _ => false,
    }
}

/// Two railways, as rolling stock refer to them, have the same id and name.
pub open spec fn railway_ref_eq(a: Railway, b: Railway) -> bool {
    a.spec_id()@ == b.spec_id()@ && a.spec_name() == b.spec_name()
}

/// Two optional sets of technical data are both absent, or both present and
/// equal.
pub open spec fn tech_specs_opt_eq(a: Option<TechSpecs>, b: Option<TechSpecs>) -> bool {
    match (a, b) {
        (Some(x), Some(y)) => tech_specs_eq(x, y),
        (None, None) => true,
        _ => false,
    }
}

impl PartialEq for RollingStock {
    fn eq(&self, other: &RollingStock) -> (r: bool) {
        match (self, other) {
            (RollingStock::ElectricMultipleUnit { id: id1, type_label: type_label1, road_number: road_number1, railway: railway1, epoch: epoch1, category: category1, depot: depot1, livery: livery1, is_dummy: is_dummy1, length_over_buffer: length_over_buffer1, control: control1, dcc_interface: dcc_interface1, tech_specs: tech_specs1 }, RollingStock::ElectricMultipleUnit { id: id2, type_label: type_label2, road_number: road_number2, railway: railway2, epoch: epoch2, category: category2, depot: depot2, livery: livery2, is_dummy: is_dummy2, length_over_buffer: length_over_buffer2, control: control2, dcc_interface: dcc_interface2, tech_specs: tech_specs2 }) => *id1 == *id2
                && *type_label1 == *type_label2
                && opt_string_eq(road_number1, road_number2)
                && *railway1 == *railway2
                && *epoch1 == *epoch2
                && *category1 == *category2
                && opt_string_eq(depot1, depot2)
                && opt_string_eq(livery1, livery2)
                && *is_dummy1 == *is_dummy2
                && *length_over_buffer1 == *length_over_buffer2
                && *control1 == *control2
                && *dcc_interface1 == *dcc_interface2
                && *tech_specs1 == *tech_specs2,
            (RollingStock::Locomotive { id: id1, class_name: class_name1, road_number: road_number1, series: series1, railway: railway1, epoch: epoch1, category: category1, depot: depot1, livery: livery1, length_over_buffer: length_over_buffer1, control: control1, dcc_interface: dcc_interface1, tech_specs: tech_specs1 }, RollingStock::Locomotive { id: id2, class_name: class_name2, road_number: road_number2, series: series2, railway: railway2, epoch: epoch2, category: category2, depot: depot2, livery: livery2, length_over_buffer: length_over_buffer2, control: control2, dcc_interface: dcc_interface2, tech_specs: tech_specs2 }) => *id1 == *id2
                && *class_name1 == *class_name2
                && *road_number1 == *road_number2
                && opt_string_eq(series1, series2)
                && *railway1 == *railway2
                && *epoch1 == *epoch2
                && *category1 == *category2
                && opt_string_eq(depot1, depot2)
                && opt_string_eq(livery1, livery2)
                && *length_over_buffer1 == *length_over_buffer2
                && *control1 == *control2
                && *dcc_interface1 == *dcc_interface2
                && *tech_specs1 == *tech_specs2,
            (RollingStock::FreightCar { id: id1, type_label: type_label1, road_number: road_number1, railway: railway1, epoch: epoch1, category: category1, livery: livery1, length_over_buffer: length_over_buffer1, tech_specs: tech_specs1 }, RollingStock::FreightCar { id: id2, type_label: type_label2, road_number: road_number2, railway: railway2, epoch: epoch2, category: category2, livery: livery2, length_over_buffer: length_over_buffer2, tech_specs: tech_specs2 }) => *id1 == *id2
                && *type_label1 == *type_label2
                && opt_string_eq(road_number1, road_number2)
                && *railway1 == *railway2
                && *epoch1 == *epoch2
                && *category1 == *category2
                && opt_string_eq(livery1, livery2)
                && *length_over_buffer1 == *length_over_buffer2
                && *tech_specs1 == *tech_specs2,
            (RollingStock::PassengerCar { id: id1, type_label: type_label1, road_number: road_number1, railway: railway1, epoch: epoch1, category: category1, service_level: service_level1, livery: livery1, length_over_buffer: length_over_buffer1, tech_specs: tech_specs1 }, RollingStock::PassengerCar { id: id2, type_label: type_label2, road_number: road_number2, railway: railway2, epoch: epoch2, category: category2, service_level: service_level2, livery: livery2, length_over_buffer: length_over_buffer2, tech_specs: tech_specs2 }) => *id1 == *id2
                && *type_label1 == *type_label2
                && opt_string_eq(road_number1, road_number2)
                && *railway1 == *railway2
                && *epoch1 == *epoch2
                && *category1 == *category2
                && *service_level1 == *service_level2
                && opt_string_eq(livery1, livery2)
                && *length_over_buffer1 == *length_over_buffer2
                && *tech_specs1 == *tech_specs2,
            (RollingStock::Railcar { id: id1, type_label: type_label1, road_number: road_number1, railway: railway1, epoch: epoch1, category: category1, depot: depot1, livery: livery1, is_dummy: is_dummy1, length_over_buffer: length_over_buffer1, control: control1, dcc_interface: dcc_interface1, tech_specs: tech_specs1 }, RollingStock::Railcar { id: id2, type_label: type_label2, road_number: road_number2, railway: railway2, epoch: epoch2, category: category2, depot: depot2, livery: livery2, is_dummy: is_dummy2, length_over_buffer: length_over_buffer2, control: control2, dcc_interface: dcc_interface2, tech_specs: tech_specs2 }) => *id1 == *id2
                && *type_label1 == *type_label2
                && opt_string_eq(road_number1, road_number2)
                && *railway1 == *railway2
                && *epoch1 == *epoch2
                && *category1 == *category2
                && opt_string_eq(depot1, depot2)
                && opt_string_eq(livery1, livery2)
                && *is_dummy1 == *is_dummy2
                && *length_over_buffer1 == *length_over_buffer2
                && *control1 == *control2
                && *dcc_interface1 == *dcc_interface2
                && *tech_specs1 == *tech_specs2,
            _ => false,
        }
    }
}

impl vstd::std_specs::cmp::PartialEqSpecImpl for RollingStock {
    open spec fn obeys_eq_spec() -> bool {
        true
    }

    open spec fn eq_spec(&self, other: &RollingStock) -> bool {
        rolling_stock_eq(*self, *other)
    }
}

impl PartialEq for Railway {
    fn eq(&self, other: &Railway) -> (r: bool) {
        self.railway_id == other.railway_id && self.name == other.name
    }
}

impl vstd::std_specs::cmp::PartialEqSpecImpl for Railway {
    open spec fn obeys_eq_spec() -> bool {
        true
    }

    open spec fn eq_spec(&self, other: &Railway) -> bool {
        railway_ref_eq(*self, *other)
    }
}

} // verus!
