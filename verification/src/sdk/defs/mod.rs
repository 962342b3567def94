pub mod c_usercmd;
pub mod cliententity;
pub mod clientstate;
pub mod recv_props;
