//! The logic engine's store of control programs: samples, uploads, activation, runs
//! and deletion.
use vstd::prelude::*;
use crate::text::{append_decimal, append_str, decimal, owned, same_text};

verus! {

/// The sample control program of an air handler.
pub const SAMPLE_AHU_LOGIC: &'static str = r##"// AHU-001 Control Logic
// Equipment Type: Air Handler
// Location: Building 1 - Mechanical Room
// Description: Primary air handler with economizer control

const logicEngine = {
  // Input channels mapping
  inputs: {
    supplyTemp: 'UI-1',      // Supply air temperature
    returnTemp: 'UI-2',      // Return air temperature  
    mixedTemp: 'UI-3',       // Mixed air temperature
    outdoorTemp: 'UI-4',     // Outdoor air temperature
    staticPressure: 'UI-5',  // Supply static pressure
    filterDP: 'UI-6',        // Filter differential pressure
    occupancy: 'UI-7',       // Occupancy status
    freezeAlarm: 'UI-8'      // Freeze protection alarm
  },
  
  // Output channels mapping
  outputs: {
    heatingValve: 'AO-1',   // Hot water valve 0-100%
    coolingValve: 'AO-2',   // Chilled water valve 0-100%
    oaDamper: 'AO-3',       // Outside air damper 0-100%
    fanSpeed: 'AO-4',       // Supply fan VFD 0-100%
    fanStart: 'RO-1',       // Supply fan starter
    chwPump: 'RO-2',        // CHW pump starter
    hwPump: 'RO-3',         // HW pump starter
    alarm: 'RO-4'           // General alarm output
  },

  // Control parameters
  parameters: {
    supplyTempSetpoint: 55,     // Supply air setpoint
    staticPressureSetpoint: 1.0, // Static pressure setpoint "WC
    minOAPosition: 20,           // Minimum OA damper position %
    economizer: {
      enabled: true,
      highLimit: 75,             // OA temp high limit
      enthalpy: false            // Use enthalpy control
    },
    pid: {
      kp: 2.0,                   // Proportional gain
      ki: 0.5,                   // Integral gain
      kd: 0.1                    // Derivative gain
    }
  },

  // Main control logic
  execute: function(inputs, setpoints, lastOutputs) {
    const outputs = {};
    
    // Occupancy schedule override
    const isOccupied = inputs.occupancy || this.checkSchedule();
    
    // Fan control
    if (isOccupied) {
      outputs.fanStart = true;
      
      // Static pressure control with PID
      const staticError = setpoints.staticPressure - inputs.staticPressure;
      outputs.fanSpeed = this.pidControl(staticError, lastOutputs.fanSpeed || 50);
      outputs.fanSpeed = Math.max(30, Math.min(100, outputs.fanSpeed));
    } else {
      outputs.fanStart = false;
      outputs.fanSpeed = 0;
    }
    
    // Temperature control
    if (outputs.fanStart) {
      const supplyError = setpoints.supplyTemp - inputs.supplyTemp;
      
      if (supplyError > 2) {
        // Need heating
        outputs.heatingValve = Math.min(100, supplyError * 10);
        outputs.coolingValve = 0;
        outputs.hwPump = outputs.heatingValve > 0;
        outputs.chwPump = false;
      } else if (supplyError < -2) {
        // Need cooling
        outputs.heatingValve = 0;
        outputs.coolingValve = Math.min(100, Math.abs(supplyError) * 10);
        outputs.hwPump = false;
        outputs.chwPump = outputs.coolingValve > 0;
      } else {
        // Deadband
        outputs.heatingValve = 0;
        outputs.coolingValve = 0;
        outputs.hwPump = false;
        outputs.chwPump = false;
      }
      
      // Economizer control
      if (this.parameters.economizer.enabled) {
        const canEconomize = inputs.outdoorTemp < inputs.returnTemp && 
                            inputs.outdoorTemp < this.parameters.economizer.highLimit &&
                            inputs.outdoorTemp > 35;
        
        if (canEconomize && outputs.coolingValve > 0) {
          // Use free cooling
          outputs.oaDamper = Math.min(100, outputs.coolingValve);
          outputs.coolingValve = Math.max(0, outputs.coolingValve - outputs.oaDamper);
        } else {
          outputs.oaDamper = this.parameters.minOAPosition;
        }
      } else {
        outputs.oaDamper = this.parameters.minOAPosition;
      }
    } else {
      // System off
      outputs.heatingValve = 0;
      outputs.coolingValve = 0;
      outputs.oaDamper = 0;
      outputs.hwPump = false;
      outputs.chwPump = false;
    }
    
    // Freeze protection
    if (inputs.freezeAlarm || inputs.mixedTemp < 35) {
      outputs.heatingValve = 100;
      outputs.oaDamper = 0;
      outputs.hwPump = true;
      outputs.alarm = true;
    } else {
      outputs.alarm = false;
    }
    
    // Filter alarm
    if (inputs.filterDP > 2.0) {
      outputs.alarm = true;
    }
    
    return outputs;
  },
  
  // Helper functions
  checkSchedule: function() {
    const hour = new Date().getHours();
    const day = new Date().getDay();
    
    // Weekday schedule: 6 AM - 6 PM
    if (day >= 1 && day <= 5) {
      return hour >= 6 && hour < 18;
    }
    
    // Weekend: Off
    return false;
  },
  
  pidControl: function(error, lastOutput) {
    // Simple PI control
    const output = lastOutput + (this.parameters.pid.kp * error);
    return output;
  }
};

module.exports = logicEngine;"##;

/// The sample staging program of a rooftop unit.
pub const SAMPLE_RTU_LOGIC: &'static str = r##"// RTU-003 Staging Control Logic
// Equipment Type: Rooftop Unit
// Description: DX cooling and gas heat with staging

const rtuControl = {
  execute: function(inputs, setpoints) {
    const outputs = {};
    const tempError = setpoints.spaceTemp - inputs.spaceTemp;
    
    // Staging based on temperature error
    if (tempError > 3) {
      outputs.heatStage1 = true;
      outputs.heatStage2 = tempError > 5;
      outputs.coolStage1 = false;
      outputs.coolStage2 = false;
    } else if (tempError < -3) {
      outputs.coolStage1 = true;
      outputs.coolStage2 = tempError < -5;
      outputs.heatStage1 = false;
      outputs.heatStage2 = false;
    } else {
      // Deadband
      outputs.heatStage1 = false;
      outputs.heatStage2 = false;
      outputs.coolStage1 = false;
      outputs.coolStage2 = false;
    }
    
    // Fan runs with any stage
    outputs.fanEnable = outputs.heatStage1 || outputs.heatStage2 || 
                       outputs.coolStage1 || outputs.coolStage2;
    
    return outputs;
  }
};

module.exports = rtuControl;"##;

/// The sample sequencing program of a chiller plant.
pub const SAMPLE_CHILLER_LOGIC: &'static str = r##"// Chiller Plant Sequencing Logic
// Equipment Type: Central Chiller Plant
// Description: Lead/lag chiller control with load balancing

const chillerPlant = {
  execute: function(inputs, setpoints) {
    const outputs = {};
    const load = inputs.coolingLoad; // Percent
    
    // Chiller staging
    if (load > 80) {
      outputs.chiller1 = true;
      outputs.chiller2 = true;
      outputs.pump1 = true;
      outputs.pump2 = true;
    } else if (load > 40) {
      outputs.chiller1 = true;
      outputs.chiller2 = false;
      outputs.pump1 = true;
      outputs.pump2 = false;
    } else if (load > 10) {
      outputs.chiller1 = true;
      outputs.chiller2 = false;
      outputs.pump1 = true;
      outputs.pump2 = false;
    } else {
      outputs.chiller1 = false;
      outputs.chiller2 = false;
      outputs.pump1 = false;
      outputs.pump2 = false;
    }
    
    // Cooling tower control
    outputs.tower1 = outputs.chiller1;
    outputs.tower2 = outputs.chiller2;
    
    // Condenser water temperature control
    const condenserError = inputs.condenserTemp - setpoints.condenserTemp;
    outputs.towerFanSpeed = Math.max(30, Math.min(100, 50 + condenserError * 5));
    
    return outputs;
  }
};

module.exports = chillerPlant;"##;

/// What a logic program regulates.
#[derive(Debug, Clone, Copy, PartialEq, Eq, Structural)]
pub enum ControlMode {
    Space,
    SupplyAir,
    ReturnAir,
    SupplyWater,
    ReturnWater,
}

/// A control program and its run record; times are Unix seconds.
#[derive(Debug, Clone)]
pub struct LogicFile {
    pub id: String,
    pub name: String,
    pub file_path: String,
    pub file_content: String,
    pub equipment_type: String,
    pub location_id: String,
    pub equipment_id: String,
    pub description: String,
    pub last_modified: i64,
    pub is_active: bool,
    pub execution_interval: u32,
    pub last_execution: Option<i64>,
    pub execution_count: u32,
    pub last_error: Option<String>,
    pub input_channel: usize,
    pub control_mode: ControlMode,
}

impl LogicFile {
    /// A copy of this program.
    pub fn duplicate(&self) -> (r: LogicFile)
        ensures
            r == *self,
    {
        LogicFile {
            id: self.id.clone(),
            name: self.name.clone(),
            file_path: self.file_path.clone(),
            file_content: self.file_content.clone(),
            equipment_type: self.equipment_type.clone(),
            location_id: self.location_id.clone(),
            equipment_id: self.equipment_id.clone(),
            description: self.description.clone(),
            last_modified: self.last_modified,
            is_active: self.is_active,
            execution_interval: self.execution_interval,
            last_execution: self.last_execution,
            execution_count: self.execution_count,
            last_error: match &self.last_error {
                Some(e) => Some(e.clone()),
                None => None,
            },
            input_channel: self.input_channel,
            control_mode: self.control_mode,
        }
    }
}

/// `i` is the position of the first program with id `id`.
pub open spec fn is_first_file(fs: Seq<LogicFile>, id: Seq<char>, i: int) -> bool {
    &&& 0 <= i < fs.len()
    &&& fs[i].id@ == id
    &&& forall|j: int| 0 <= j < i ==> (#[trigger] fs[j]).id@ != id
}

/// No program has id `id`.
pub open spec fn no_file(fs: Seq<LogicFile>, id: Seq<char>) -> bool {
    forall|j: int| 0 <= j < fs.len() ==> (#[trigger] fs[j]).id@ != id
}

/// The programs other than those with id `id`, in order.
pub open spec fn without_file(fs: Seq<LogicFile>, id: Seq<char>) -> Seq<LogicFile> {
    fs.filter(|f: LogicFile| f.id@ != id)
}

/// The program made from an upload of `name` with `content` when `count` programs exist,
/// at `now`: id `logic_{count + 1}`, stored under `/logic/{name}`, inactive.
pub open spec fn uploaded_file(f: LogicFile, name: Seq<char>, content: Seq<char>, count: nat, now: i64) -> bool {
    &&& f.id@ == "logic_"@ + decimal(count + 1)
    &&& f.name@ == name
    &&& f.file_path@ == "/logic/"@ + name
    &&& f.file_content@ == content
    &&& f.equipment_type@ == "Custom Upload"@
    &&& f.location_id@ == "Unknown"@
    &&& f.equipment_id@ == "UPLOAD001"@
    &&& f.description@ == "Uploaded file: "@ + name
    &&& f.last_modified == now
    &&& !f.is_active
    &&& f.execution_interval == 30
    &&& f.last_execution is None
    &&& f.execution_count == 0
    &&& f.last_error is None
    &&& f.input_channel == 0
    &&& f.control_mode == ControlMode::Space
}

fn sample_file(
    id: &str,
    name: &str,
    content: &str,
    equipment_type: &str,
    location_id: &str,
    equipment_id: &str,
    description: &str,
    now: i64,
    active: bool,
    interval: u32,
    last_execution: Option<i64>,
    count: u32,
    last_error: Option<&str>,
    input_channel: usize,
    control_mode: ControlMode,
) -> (f: LogicFile)
    ensures
        f.id@ == id@,
        f.name@ == name@,
        f.file_path@ == "/logic/"@ + name@,
        f.file_content@ == content@,
        f.last_modified == now,
        f.is_active == active,
        f.execution_interval == interval,
        f.last_execution == last_execution,
        f.execution_count == count,
        f.input_channel == input_channel,
        f.control_mode == control_mode,
        f.equipment_id@ == equipment_id@,
        match last_error {
            Some(e) => f.last_error matches Some(x) && x@ == e@,
            None => f.last_error is None,
        },
{
    let mut path = owned("/logic/");
    append_str(&mut path, name);
    LogicFile {
        id: owned(id),
        name: owned(name),
        file_path: path,
        file_content: owned(content),
        equipment_type: owned(equipment_type),
        location_id: owned(location_id),
        equipment_id: owned(equipment_id),
        description: owned(description),
        last_modified: now,
        is_active: active,
        execution_interval: interval,
        last_execution,
        execution_count: count,
        last_error: match last_error {
            Some(e) => Some(owned(e)),
            None => None,
        },
        input_channel,
        control_mode,
    }
}

/// The control programs of the logic engine and the one selected.
pub struct LogicStore {
    files: Vec<LogicFile>,
    selected: Option<String>,
}

impl LogicStore {
    /// The programs.
    pub closed spec fn files(&self) -> Seq<LogicFile> {
        self.files@
    }

    /// The id of the selected program.
    pub closed spec fn selection(&self) -> Option<Seq<char>> {
        match self.selected {
            Some(s) => Some(s@),
            None => None,
        }
    }

    /// The engine's store at `now`: the three sample programs (the air handler's, active,
    /// input 0; the rooftop unit's, inactive, with a fan drive error, input 1; the chiller
    /// plant's, inactive, input 2), nothing selected.
    pub fn new(now: i64) -> (s: LogicStore)
        ensures
            s.files().len() == 3,
            s.files()[0].id@ == "logic_ahu_001"@ && s.files()[0].is_active && s.files()[0].file_content@ == SAMPLE_AHU_LOGIC@
                && s.files()[0].execution_count == 1247 && s.files()[0].last_execution == Some(now),
            s.files()[1].id@ == "logic_rtu_003"@ && !s.files()[1].is_active && s.files()[1].file_content@ == SAMPLE_RTU_LOGIC@
                && (s.files()[1].last_error matches Some(e) && e@ == "Fan VFD communication timeout"@),
            s.files()[2].id@ == "logic_chp_001"@ && !s.files()[2].is_active && s.files()[2].file_content@ == SAMPLE_CHILLER_LOGIC@
                && s.files()[2].execution_count == 543,
            s.selection() is None,
    {
        let files = vec![
            sample_file(
                "logic_ahu_001",
                "AHU-001_Control.js",
                SAMPLE_AHU_LOGIC,
                "Air Handler",
                "Building-1",
                "AHU-001",
                "Primary air handler control logic with economizer",
                now,
                true,
                30,
                Some(now),
                1247,
                None,
                0,
                ControlMode::SupplyAir,
            ),
            sample_file(
                "logic_rtu_003",
                "RTU-003_Staging.js",
                SAMPLE_RTU_LOGIC,
                "Rooftop Unit",
                "Building-2",
                "RTU-003",
                "Rooftop unit with DX cooling and gas heat staging",
                now,
                false,
                60,
                None,
                0,
                Some("Fan VFD communication timeout"),
                1,
                ControlMode::ReturnAir,
            ),
            sample_file(
                "logic_chp_001",
                "ChillerPlant_Sequencing.js",
                SAMPLE_CHILLER_LOGIC,
                "Chiller Plant",
                "Central Plant",
                "CHP-001",
                "Chiller staging and load balancing control",
                now,
                false,
                120,
                None,
                543,
                None,
                2,
                ControlMode::SupplyWater,
            ),
        ];
        LogicStore { files, selected: None }
    }

    /// The programs.
    pub fn logic_files(&self) -> (v: &Vec<LogicFile>)
        ensures
            v@ == self.files(),
    {
        &self.files
    }

    /// Selects the program with id `id`, or none.
    pub fn select(&mut self, id: Option<String>)
        ensures
            final(self).selection() == match id {
                Some(s) => Some(s@),
                None => None,
            },
            final(self).files() == old(self).files(),
    {
        self.selected = id;
    }

    /// The position of the first program with id `id`.
    fn position(&self, id: &str) -> (r: Option<usize>)
        ensures
            match r {
                Some(i) => is_first_file(self.files(), id@, i as int),
                None => no_file(self.files(), id@),
            },
    {
        let mut i: usize = 0;
        while i < self.files.len()
            invariant
                i <= self.files@.len(),
                forall|j: int| 0 <= j < i ==> (#[trigger] self.files@[j]).id@ != id@,
            decreases self.files@.len() - i,
        {
            if same_text(self.files[i].id.as_str(), id) {
                return Some(i);
            }
            i = i + 1;
        }
        None
    }

    /// Adds an uploaded program named `name` with `content`, at `now`; an upload without
    /// a name or without content is ignored. Returns whether it was added.
    pub fn upload_logic_file(&mut self, name: &str, content: &str, now: i64) -> (added: bool)
        requires
            old(self).files().len() < usize::MAX,
        ensures
            added == (name@.len() > 0 && content@.len() > 0),
            !added ==> final(self).files() == old(self).files(),
            added ==> final(self).files().len() == old(self).files().len() + 1
                && final(self).files().drop_last() == old(self).files()
                && uploaded_file(final(self).files().last(), name@, content@, old(self).files().len(), now),
            final(self).selection() == old(self).selection(),
    {
        if name.unicode_len() == 0 || content.unicode_len() == 0 {
            return false;
        }
        let n = self.files.len();
        let mut id = owned("logic_");
        append_decimal(&mut id, (n + 1) as u64);
        let mut path = owned("/logic/");
        append_str(&mut path, name);
        let mut description = owned("Uploaded file: ");
        append_str(&mut description, name);
        let f = LogicFile {
            id,
            name: owned(name),
            file_path: path,
            file_content: owned(content),
            equipment_type: owned("Custom Upload"),
            location_id: owned("Unknown"),
            equipment_id: owned("UPLOAD001"),
            description,
            last_modified: now,
            is_active: false,
            execution_interval: 30,
            last_execution: None,
            execution_count: 0,
            last_error: None,
            input_channel: 0,
            control_mode: ControlMode::Space,
        };
        let ghost fv = f;
        self.files.push(f);
        assert(self.files@.drop_last() =~= old(self).files@);
        assert(self.files@.last() == fv);
        true
    }

    /// Switches the first program with id `id` on or off.
    pub fn toggle_logic_active(&mut self, id: &str, active: bool)
        ensures
            final(self).selection() == old(self).selection(),
            no_file(old(self).files(), id@) ==> final(self).files() == old(self).files(),
            forall|i: int| #[trigger] is_first_file(old(self).files(), id@, i) ==> final(self).files().len()
                == old(self).files().len() && (forall|j: int| 0 <= j < old(self).files().len() && j != i
                ==> final(self).files()[j] == old(self).files()[j]) && final(self).files()[i].is_active == active
                && final(self).files()[i].id == old(self).files()[i].id,
    {
        match self.position(id) {
            Some(i) => {
                let mut f = self.files[i].duplicate();
                f.is_active = active;
                self.files.set(i, f);
                proof {
                    assert forall|k: int| #[trigger] is_first_file(old(self).files(), id@, k) implies k == i by {
                        if k < i {
                            assert(old(self).files()[k].id@ != id@);
                        } else if k > i {
                            assert(old(self).files()[i as int].id@ != id@);
                        }
                    }
                }
            },
            None => {},
        }
    }

    /// Sets the input channel of the first program with id `id`.
    pub fn update_input_channel(&mut self, id: &str, channel: usize)
        ensures
            final(self).selection() == old(self).selection(),
            no_file(old(self).files(), id@) ==> final(self).files() == old(self).files(),
            forall|i: int| #[trigger] is_first_file(old(self).files(), id@, i) ==> final(self).files().len()
                == old(self).files().len() && (forall|j: int| 0 <= j < old(self).files().len() && j != i
                ==> final(self).files()[j] == old(self).files()[j]) && final(self).files()[i].input_channel == channel
                && final(self).files()[i].id == old(self).files()[i].id,
    {
        match self.position(id) {
            Some(i) => {
                let mut f = self.files[i].duplicate();
                f.input_channel = channel;
                self.files.set(i, f);
                proof {
                    assert forall|k: int| #[trigger] is_first_file(old(self).files(), id@, k) implies k == i by {
                        if k < i {
                            assert(old(self).files()[k].id@ != id@);
                        } else if k > i {
                            assert(old(self).files()[i as int].id@ != id@);
                        }
                    }
                }
            },
            None => {},
        }
    }

    /// Replaces the first program with the id of `updated`.
    pub fn update_logic_file(&mut self, updated: LogicFile)
        ensures
            final(self).selection() == old(self).selection(),
            no_file(old(self).files(), updated.id@) ==> final(self).files() == old(self).files(),
            forall|i: int| #[trigger] is_first_file(old(self).files(), updated.id@, i) ==> final(self).files()
                == old(self).files().update(i, updated),
    {
        let ghost u = updated;
        match self.position(updated.id.as_str()) {
            Some(i) => {
                self.files.set(i, updated);
                proof {
                    assert forall|k: int| #[trigger] is_first_file(old(self).files(), u.id@, k) implies k == i by {
                        if k < i {
                            assert(old(self).files()[k].id@ != u.id@);
                        } else if k > i {
                            assert(old(self).files()[i as int].id@ != u.id@);
                        }
                    }
                }
            },
            None => {},
        }
    }

    /// Records a run of the first program with id `id` at `now`: one more run (wrapping
    /// at `u32::MAX`), last run `now`.
    pub fn record_execution(&mut self, id: &str, now: i64)
        ensures
            final(self).selection() == old(self).selection(),
            no_file(old(self).files(), id@) ==> final(self).files() == old(self).files(),
            forall|i: int| #[trigger] is_first_file(old(self).files(), id@, i) ==> final(self).files().len()
                == old(self).files().len() && (forall|j: int| 0 <= j < old(self).files().len() && j != i
                ==> final(self).files()[j] == old(self).files()[j])
                && final(self).files()[i].execution_count == old(self).files()[i].execution_count.wrapping_add(1)
                && final(self).files()[i].last_execution == Some(now)
                && final(self).files()[i].id == old(self).files()[i].id,
    {
        match self.position(id) {
            Some(i) => {
                let mut f = self.files[i].duplicate();
                f.execution_count = f.execution_count.wrapping_add(1);
                f.last_execution = Some(now);
                self.files.set(i, f);
                proof {
                    assert forall|k: int| #[trigger] is_first_file(old(self).files(), id@, k) implies k == i by {
                        if k < i {
                            assert(old(self).files()[k].id@ != id@);
                        } else if k > i {
                            assert(old(self).files()[i as int].id@ != id@);
                        }
                    }
                }
            },
            None => {},
        }
    }

    /// Deletes every program with id `id`. When it was the selected one, the selection
    /// is cleared and `true` is returned: its execution history is to be cleared too.
    pub fn delete_logic_file(&mut self, id: &str) -> (was_selected: bool)
        ensures
            final(self).files() == without_file(old(self).files(), id@),
            was_selected == (old(self).selection() == Some(id@)),
            was_selected ==> final(self).selection() is None,
            !was_selected ==> final(self).selection() == old(self).selection(),
    {
        let ghost fs = self.files@;
        let mut kept: Vec<LogicFile> = Vec::new();
        let mut i: usize = 0;
        assert(fs.take(0).filter(|f: LogicFile| f.id@ != id@) =~= Seq::<LogicFile>::empty());
        while i < self.files.len()
            invariant
                fs == self.files@,
                i <= fs.len(),
                kept@ == fs.take(i as int).filter(|f: LogicFile| f.id@ != id@),
            decreases fs.len() - i,
        {
            proof {
                assert(fs.take(i + 1).drop_last() =~= fs.take(i as int));
                fs.take(i + 1).filter_lemma(|f: LogicFile| f.id@ != id@);
                reveal(Seq::filter);
            }
            if !same_text(self.files[i].id.as_str(), id) {
                kept.push(self.files[i].duplicate());
            }
            i = i + 1;
        }
        assert(fs.take(fs.len() as int) =~= fs);
        self.files = kept;
        let was = match &self.selected {
            Some(s) => same_text(s.as_str(), id),
            None => false,
        };
        if was {
            self.selected = None;
        }
        was
    }
}

/// The number of runs the execution history keeps.
pub const EXECUTION_HISTORY_LIMIT: usize = 20;

/// The history, newest first, after recording `x`: it goes in front, and the history
/// is cut to `max` entries.
pub open spec fn newest_first<T>(h: Seq<T>, x: T, max: nat) -> Seq<T> {
    let n = seq![x] + h;
    if n.len() > max { n.take(max as int) } else { n }
}

/// Records `x` at the front of `history`, keeping at most `max` entries.
pub fn push_front_bounded<T>(history: &mut Vec<T>, x: T, max: usize)
    ensures
        final(history)@ == newest_first(old(history)@, x, max as nat),
{
    history.insert(0, x);
    assert(history@ =~= seq![x] + old(history)@);
    if history.len() > max {
        history.truncate(max);
    }
}

/// A recorded run is the newest entry of the history (unless nothing is kept), the
/// earlier runs follow in their order, and the history holds at most `max` runs.
pub proof fn law_newest_run_first<T>(h: Seq<T>, x: T, max: nat)
    ensures
        newest_first(h, x, max).len() == if h.len() + 1 > max { max } else { h.len() + 1 },
        max > 0 ==> newest_first(h, x, max)[0] == x,
        forall|i: int| 1 <= i < newest_first(h, x, max).len() ==> #[trigger] newest_first(h, x, max)[i] == h[i - 1],
{
}


/// Showing a program's file, which is licensed: what is viewed, whether the file window
/// or the licence window is open, and whether the licence was agreed to since the
/// viewing began.
pub struct ViewerState {
    pub viewing: Option<Seq<char>>,
    pub show_view_dialog: bool,
    pub show_license_dialog: bool,
    pub license_agreed: bool,
}

/// The file viewer of the logic engine.
#[derive(Debug, Clone)]
pub struct LicensedViewer {
    viewing: Option<String>,
    show_view_dialog: bool,
    show_license_dialog: bool,
    license_agreed: bool,
}

impl View for LicensedViewer {
    type V = ViewerState;

    closed spec fn view(&self) -> ViewerState {
        ViewerState {
            viewing: match self.viewing {
                Some(v) => Some(v@),
                None => None,
            },
            show_view_dialog: self.show_view_dialog,
            show_license_dialog: self.show_license_dialog,
            license_agreed: self.license_agreed,
        }
    }
}

/// Asking to view file `id`: the file window is requested and the licence must be agreed
/// to anew.
pub open spec fn viewer_opened(s: ViewerState, id: Seq<char>) -> ViewerState {
    ViewerState { viewing: Some(id), show_view_dialog: true, license_agreed: false, ..s }
}

/// A frame of the interface: a file window requested without agreement turns into the
/// licence window.
pub open spec fn viewer_refreshed(s: ViewerState) -> ViewerState {
    if s.show_view_dialog && !s.license_agreed {
        ViewerState { show_license_dialog: true, show_view_dialog: false, ..s }
    } else {
        s
    }
}

/// Agreeing to the licence: the file window opens.
pub open spec fn viewer_agreed(s: ViewerState) -> ViewerState {
    ViewerState { license_agreed: true, show_license_dialog: false, show_view_dialog: true, ..s }
}

/// Declining the licence: nothing is viewed any more.
pub open spec fn viewer_declined(s: ViewerState) -> ViewerState {
    ViewerState { show_license_dialog: false, viewing: None, ..s }
}

/// Closing the file window.
pub open spec fn viewer_closed(s: ViewerState) -> ViewerState {
    ViewerState { show_view_dialog: false, viewing: None, ..s }
}

/// Whether a frame shows the file's contents: the file window is open, the licence was
/// agreed to, and a file is viewed.
pub open spec fn file_shown(s: ViewerState) -> bool {
    s.show_view_dialog && s.license_agreed && s.viewing is Some
}

impl LicensedViewer {
    /// A viewer showing nothing.
    pub fn new() -> (v: LicensedViewer)
        ensures
            v@ == (ViewerState { viewing: None, show_view_dialog: false, show_license_dialog: false, license_agreed: false }),
    {
        LicensedViewer { viewing: None, show_view_dialog: false, show_license_dialog: false, license_agreed: false }
    }

    /// Asks to view file `id`.
    pub fn view_logic_file(&mut self, id: &str)
        ensures
            final(self)@ == viewer_opened(old(self)@, id@),
    {
        self.viewing = Some(owned(id));
        self.show_view_dialog = true;
        self.license_agreed = false;
    }

    /// One frame of the interface.
    pub fn refresh(&mut self)
        ensures
            final(self)@ == viewer_refreshed(old(self)@),
    {
        if self.show_view_dialog && !self.license_agreed {
            self.show_license_dialog = true;
            self.show_view_dialog = false;
        }
    }

    /// "I Agree to Terms".
    pub fn agree(&mut self)
        ensures
            final(self)@ == viewer_agreed(old(self)@),
    {
        self.license_agreed = true;
        self.show_license_dialog = false;
        self.show_view_dialog = true;
    }

    /// "Cancel" in the licence window.
    pub fn decline(&mut self)
        ensures
            final(self)@ == viewer_declined(old(self)@),
    {
        self.show_license_dialog = false;
        self.viewing = None;
    }

    /// "Close" in the file window.
    pub fn close(&mut self)
        ensures
            final(self)@ == viewer_closed(old(self)@),
    {
        self.show_view_dialog = false;
        self.viewing = None;
    }

    /// The file whose contents a frame shows, if any.
    pub fn shown_file(&self) -> (r: Option<String>)
        ensures
            r is Some == file_shown(self@),
            r matches Some(id) ==> self@.viewing == Some(id@),
    {
        if self.show_view_dialog && self.license_agreed {
            match &self.viewing {
                Some(id) => Some(id.clone()),
                None => None,
            }
        } else {
            None
        }
    }

    /// Whether the licence window is open.
    pub fn license_dialog_open(&self) -> (b: bool)
        ensures
            b == self@.show_license_dialog,
    {
        self.show_license_dialog
    }
}

/// A file is never shown without agreement to its licence since it was asked for: right
/// after asking, no frame shows it and the next frame asks for agreement; once agreed to,
/// it is shown; declining shows nothing.
pub proof fn law_file_shown_only_after_agreement(s: ViewerState, id: Seq<char>)
    ensures
        !file_shown(viewer_opened(s, id)),
        !file_shown(viewer_refreshed(viewer_opened(s, id))),
        viewer_refreshed(viewer_opened(s, id)).show_license_dialog,
        file_shown(viewer_agreed(viewer_refreshed(viewer_opened(s, id)))),
        viewer_agreed(viewer_refreshed(viewer_opened(s, id))).viewing == Some(id),
        !file_shown(viewer_declined(viewer_refreshed(viewer_opened(s, id)))),
        forall|t: ViewerState| #[trigger] file_shown(t) ==> t.license_agreed,
{
}

} // verus!
